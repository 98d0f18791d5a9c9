use virst_core::bindings::{bindings_for_model, ParamDecl};
use virst_core::load::LoadError;
use virst_core::snapshot::{enumerate_inputs, BoneValues, ChannelUpdate, TrackingSnapshot};
use virst_core::tracker::{BindingKind, InputBoneKind, InputKind, ParamBinding, ResolveError};

fn default_simple_binding() -> BindingKind {
    BindingKind::simple()
}

#[test]
fn resolve_default_range_center_and_ends() {
    // Input range -30..30 units, output range -1..1: the ends and the
    // middle land exactly.
    let b = default_simple_binding();
    assert_eq!(b.resolve(0), Ok(0));
    assert_eq!(b.resolve(30_000), Ok(1_000));
    assert_eq!(b.resolve(-30_000), Ok(-1_000));
}

#[test]
fn resolve_truncates_toward_zero() {
    let b = BindingKind::Simple {
        input: InputKind::NoInput,
        input_range: (0, 3_000),
        output_range: (0, 1_000),
        dampen: 0,
    };
    assert_eq!(b.resolve(1_000), Ok(333));
    let negative = BindingKind::Simple {
        input: InputKind::NoInput,
        input_range: (0, 3_000),
        output_range: (0, -1_000),
        dampen: 0,
    };
    assert_eq!(negative.resolve(1_000), Ok(-333));
}

#[test]
fn degenerate_input_range_is_rejected() {
    let b = BindingKind::Simple {
        input: InputKind::NoInput,
        input_range: (5_000, 5_000),
        output_range: (-1_000, 1_000),
        dampen: 0,
    };
    assert_eq!(b.resolve(0), Err(ResolveError::DegenerateRange));
    assert_eq!(b.resolve(5_000), Err(ResolveError::DegenerateRange));
}

#[test]
fn expression_bindings_are_unimplemented() {
    assert_eq!(BindingKind::expr().resolve(0), Err(ResolveError::Unimplemented));
}

#[test]
fn simple_has_the_documented_defaults() {
    let expected = BindingKind::Simple {
        input: InputKind::NoInput,
        input_range: (-30_000, 30_000),
        output_range: (-1_000, 1_000),
        dampen: 0,
    };
    assert_eq!(BindingKind::simple(), expected);
}

#[test]
fn default_and_clear_binding_on_both_dimensions() {
    let mut one = ParamBinding::OneDim(None);
    assert!(one.is_unbound());
    one.default_binding();
    assert!(one.is_bound());
    match &one {
        ParamBinding::OneDim(Some(b)) => assert_eq!(*b, BindingKind::simple()),
        _ => panic!("one-dimensional binding expected"),
    }
    one.clear_binding();
    assert!(one.is_unbound());

    let mut two = ParamBinding::TwoDim(None);
    two.default_binding();
    match &two {
        ParamBinding::TwoDim(Some((x, y))) => {
            assert_eq!(*x, BindingKind::simple());
            assert_eq!(*y, BindingKind::simple());
        },
        _ => panic!("two-dimensional binding expected"),
    }
    two.clear_binding();
    assert!(two.is_unbound());
}

#[test]
fn rebuild_yields_every_declared_param_unbound() {
    let params = vec![
        ParamDecl { name: "mouth".to_string(), is_vec2: false },
        ParamDecl { name: "eyes".to_string(), is_vec2: true },
    ];
    let store = bindings_for_model(&params);
    assert_eq!(store.len(), 2);
    let mouth = store.get(&"mouth".to_string()).expect("mouth is declared");
    assert!(matches!(mouth, ParamBinding::OneDim(None)));
    let eyes = store.get(&"eyes".to_string()).expect("eyes are declared");
    assert!(matches!(eyes, ParamBinding::TwoDim(None)));
    assert!(store.get(&"tail".to_string()).is_none());
    // Declaration order is kept.
    assert_eq!(store.entry_at(0).0, "mouth");
    assert_eq!(store.entry_at(1).0, "eyes");
}

#[test]
fn input_names_render_as_displayed() {
    assert_eq!(InputKind::NoInput.name(), "<none>");
    assert_eq!(InputKind::Blendshape("Joy".to_string()).name(), "Joy");
    assert_eq!(InputKind::Bone("Head".to_string(), InputBoneKind::Roll).name(), "Head (Roll)");
    assert_eq!(InputBoneKind::Pitch.name(), "Pitch");
}

#[test]
fn enumerate_inputs_on_an_empty_snapshot() {
    let snapshot = TrackingSnapshot::new();
    assert_eq!(enumerate_inputs(&snapshot), vec![InputKind::NoInput]);
}

#[test]
fn enumerate_inputs_lists_blends_then_bone_axes() {
    let mut snapshot = TrackingSnapshot::new();
    snapshot.apply_update(ChannelUpdate::Blendshape("joy".to_string(), 100));
    snapshot.apply_update(ChannelUpdate::Bone(
        "head".to_string(),
        BoneValues { x: 0, y: 0, z: 0, roll: 0, pitch: 0, yaw: 0 },
    ));
    let inputs = enumerate_inputs(&snapshot);
    let expected = vec![
        InputKind::NoInput,
        InputKind::Blendshape("joy".to_string()),
        InputKind::Bone("head".to_string(), InputBoneKind::X),
        InputKind::Bone("head".to_string(), InputBoneKind::Y),
        InputKind::Bone("head".to_string(), InputBoneKind::Z),
        InputKind::Bone("head".to_string(), InputBoneKind::Roll),
        InputKind::Bone("head".to_string(), InputBoneKind::Pitch),
        InputKind::Bone("head".to_string(), InputBoneKind::Yaw),
    ];
    assert_eq!(inputs, expected);
}

#[test]
fn snapshot_clear_forgets_every_channel() {
    let mut snapshot = TrackingSnapshot::new();
    snapshot.apply_update(ChannelUpdate::Blendshape("joy".to_string(), 100));
    snapshot.clear();
    assert_eq!(snapshot.get_blend(&"joy".to_string()), None);
    assert_eq!(enumerate_inputs(&snapshot), vec![InputKind::NoInput]);
}

#[test]
fn load_errors_keep_their_cause_apart() {
    let read: LoadError<String> =
        LoadError::FailedToRead(std::io::Error::new(std::io::ErrorKind::NotFound, "gone"));
    assert!(matches!(read, LoadError::FailedToRead(_)));
    let parse: LoadError<String> = LoadError::InvalidFile("truncated".to_string());
    match parse {
        LoadError::InvalidFile(why) => assert_eq!(why, "truncated"),
        LoadError::FailedToRead(_) => panic!("parse failure expected"),
    }
}
