use virst_core::bindings::{bindings_for_model, ParamDecl};
use virst_core::displayed_model::DisplayedModel;

#[test]
fn fresh_slot_reads_none_and_zero() {
    let slot: DisplayedModel<String> = DisplayedModel::new();
    let (current, generation) = slot.current_model();
    assert!(current.is_none());
    assert_eq!(generation, 0);
}

#[test]
fn swap_advances_generation_and_publishes() {
    let mut slot: DisplayedModel<u32> = DisplayedModel::new();
    for i in 1..=50u32 {
        slot.swap_model(Some(i));
        let (current, generation) = slot.current_model();
        assert_eq!(generation, i);
        assert_eq!(*current.expect("a model was swapped in"), i);
    }
}

#[test]
fn swap_none_clears_but_still_advances() {
    let mut slot: DisplayedModel<u32> = DisplayedModel::new();
    slot.swap_model(Some(7));
    slot.swap_model(None);
    let (current, generation) = slot.current_model();
    assert!(current.is_none());
    assert_eq!(generation, 2);
}

#[test]
fn reader_keeps_its_handle_across_swaps() {
    let mut slot: DisplayedModel<String> = DisplayedModel::new();
    slot.swap_model(Some("first".to_string()));
    let (held, generation) = slot.current_model();
    let held = held.expect("a model was swapped in");
    slot.swap_model(Some("second".to_string()));
    // The old handle still reads the old model; a new read sees the new one.
    assert_eq!(*held, "first");
    assert_eq!(generation, 1);
    let (current, generation) = slot.current_model();
    assert_eq!(*current.expect("a model was swapped in"), "second");
    assert_eq!(generation, 2);
}

#[test]
fn bindings_ride_along_with_the_slot() {
    let mut slot: DisplayedModel<u32> = DisplayedModel::new();
    assert_eq!(slot.bindings.len(), 0);
    let params = vec![ParamDecl { name: "mouth".to_string(), is_vec2: false }];
    slot.bindings = bindings_for_model(&params);
    slot.swap_model(Some(1));
    assert_eq!(slot.bindings.len(), 1);
    assert!(slot.bindings.contains(&"mouth".to_string()));
}
