use virst_core::snapshot::{BoneValues, ChannelUpdate};
use virst_core::system::{AlreadyConnectedError, TrackerSystem, WorkerDirective, WorkerEvent};

#[test]
fn disconnect_on_idle_is_a_noop() {
    let mut system = TrackerSystem::new();
    assert!(!system.active());
    system.disconnect();
    assert!(!system.active());
    system.disconnect();
    assert!(!system.active());
}

#[test]
fn connect_twice_fails_and_keeps_the_first() {
    let mut system = TrackerSystem::new();
    assert!(system.connect().is_ok());
    assert!(system.active());
    assert_eq!(system.connect(), Err(AlreadyConnectedError));
    assert!(system.active());
}

#[test]
fn reconnect_after_disconnect_succeeds() {
    let mut system = TrackerSystem::new();
    assert!(system.connect().is_ok());
    system.disconnect();
    assert!(!system.active());
    assert!(system.connect().is_ok());
    assert!(system.active());
}

#[test]
fn a_dead_worker_is_inactive_but_must_be_disconnected() {
    let mut system = TrackerSystem::new();
    assert!(system.connect().is_ok());
    system.worker_exited();
    assert!(!system.active());
    // The bookkeeping is still attached: connecting again is refused.
    assert_eq!(system.connect(), Err(AlreadyConnectedError));
    system.disconnect();
    assert!(system.connect().is_ok());
}

#[test]
fn worker_continues_on_timeout_and_on_receive_errors() {
    let mut system = TrackerSystem::new();
    assert!(system.connect().is_ok());
    assert_eq!(system.worker_step(WorkerEvent::TimedOut), WorkerDirective::Continue);
    assert_eq!(system.worker_step(WorkerEvent::RecvFailed), WorkerDirective::Continue);
    assert!(system.active());
}

#[test]
fn worker_folds_packets_into_the_snapshot() {
    let mut system = TrackerSystem::new();
    assert!(system.connect().is_ok());
    let updates = vec![
        ChannelUpdate::Blendshape("brow".to_string(), 250),
        ChannelUpdate::Bone(
            "head".to_string(),
            BoneValues { x: 1, y: 2, z: 3, roll: 4, pitch: 5, yaw: 6 },
        ),
    ];
    assert_eq!(system.worker_step(WorkerEvent::Packet(updates)), WorkerDirective::Continue);
    assert_eq!(system.data().get_blend(&"brow".to_string()), Some(250));
    let bone = system.data().get_bone(&"head".to_string()).expect("bone was recorded");
    assert_eq!(bone.roll, 4);
    assert_eq!(system.data().get_blend(&"unknown".to_string()), None);
}

#[test]
fn the_last_update_to_a_channel_wins() {
    let mut system = TrackerSystem::new();
    assert!(system.connect().is_ok());
    let updates = vec![
        ChannelUpdate::Blendshape("joy".to_string(), 100),
        ChannelUpdate::Blendshape("joy".to_string(), 900),
    ];
    system.worker_step(WorkerEvent::Packet(updates));
    assert_eq!(system.data().get_blend(&"joy".to_string()), Some(900));
    // One channel, updated twice, stays one entry.
    assert_eq!(system.data().blends.len(), 1);
}

#[test]
fn a_cancelled_worker_exits_within_one_step() {
    let mut system = TrackerSystem::new();
    assert!(system.connect().is_ok());
    system.disconnect();
    // The next iteration observes the flag, exits, and touches nothing.
    let updates = vec![ChannelUpdate::Blendshape("late".to_string(), 1)];
    assert_eq!(system.worker_step(WorkerEvent::Packet(updates)), WorkerDirective::Exit);
    assert_eq!(system.data().get_blend(&"late".to_string()), None);
}

#[test]
fn draining_hands_over_the_state_and_leaves_empty() {
    let mut system = TrackerSystem::new();
    assert!(system.connect().is_ok());
    let updates = vec![ChannelUpdate::Blendshape("joy".to_string(), 100)];
    system.worker_step(WorkerEvent::Packet(updates));
    let drained = system.take_data();
    assert_eq!(drained.get_blend(&"joy".to_string()), Some(100));
    assert_eq!(system.data().get_blend(&"joy".to_string()), None);
    assert!(system.active());
}

#[test]
fn reset_clears_the_snapshot_but_not_the_connection() {
    let mut system = TrackerSystem::new();
    assert!(system.connect().is_ok());
    let updates = vec![ChannelUpdate::Blendshape("joy".to_string(), 100)];
    system.worker_step(WorkerEvent::Packet(updates));
    system.reset();
    assert_eq!(system.data().get_blend(&"joy".to_string()), None);
    assert!(system.active());
}
