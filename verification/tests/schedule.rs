use scene_labeler::label::{label, NamedNode};
use scene_labeler::schedule::{Callback, Schedule};
use scene_labeler::spawn::{spawn, Model};
use scene_labeler::state::{LoadStatus, LoadingState, Marker};

#[test]
fn startup_is_unloaded_and_alive() {
    let start = Schedule::new();
    assert_eq!(start.state, LoadingState::Unloaded);
    assert!(!start.halted);
}

#[test]
fn waiting_tick_changes_nothing() {
    let start = Schedule::new();
    for status in [LoadStatus::InProgress, LoadStatus::Other] {
        let tick = start.tick(status);
        assert_eq!(tick.next, start);
        assert!(tick.callbacks.is_empty());
    }
}

#[test]
fn loaded_tick_enters_loaded_and_runs_the_chain() {
    let tick = Schedule::new().tick(LoadStatus::Loaded);
    assert_eq!(tick.next, Schedule { state: LoadingState::Loaded, halted: false });
    assert_eq!(tick.callbacks, vec![Callback::Spawn, Callback::Flush, Callback::Label]);
}

#[test]
fn failed_tick_halts_without_spawning() {
    let tick = Schedule::new().tick(LoadStatus::Failed);
    assert_eq!(tick.next, Schedule { state: LoadingState::Unloaded, halted: true });
    assert!(tick.callbacks.is_empty());
}

#[test]
fn loaded_state_is_terminal() {
    let loaded = Schedule::new().tick(LoadStatus::Loaded).next;
    for status in [LoadStatus::InProgress, LoadStatus::Loaded, LoadStatus::Failed, LoadStatus::Other]
    {
        let tick = loaded.tick(status);
        assert_eq!(tick.next, loaded);
        assert!(tick.callbacks.is_empty());
    }
}

#[test]
fn halted_application_does_nothing_more() {
    let halted = Schedule::new().tick(LoadStatus::Failed).next;
    for status in [LoadStatus::InProgress, LoadStatus::Loaded, LoadStatus::Failed, LoadStatus::Other]
    {
        let tick = halted.tick(status);
        assert_eq!(tick.next, halted);
        assert!(tick.callbacks.is_empty());
    }
}

#[test]
fn run_spawns_the_scene_once() {
    let statuses = vec![
        LoadStatus::Other,
        LoadStatus::InProgress,
        LoadStatus::InProgress,
        LoadStatus::Loaded,
        LoadStatus::Loaded,
        LoadStatus::Failed,
        LoadStatus::InProgress,
    ];
    let end = Schedule::new().run(&statuses);
    assert_eq!(end.next, Schedule { state: LoadingState::Loaded, halted: false });
    assert_eq!(end.callbacks, vec![Callback::Spawn, Callback::Flush, Callback::Label]);
}

#[test]
fn run_that_only_waits_stays_unloaded() {
    let statuses = vec![LoadStatus::InProgress, LoadStatus::Other, LoadStatus::InProgress];
    let end = Schedule::new().run(&statuses);
    assert_eq!(end.next, Schedule::new());
    assert!(end.callbacks.is_empty());
}

#[test]
fn run_on_no_ticks() {
    let end = Schedule::new().run(&Vec::new());
    assert_eq!(end.next, Schedule::new());
    assert!(end.callbacks.is_empty());
}

#[test]
fn run_that_fails_never_spawns() {
    let statuses = vec![LoadStatus::InProgress, LoadStatus::Failed, LoadStatus::Loaded];
    let end = Schedule::new().run(&statuses);
    assert_eq!(end.next, Schedule { state: LoadingState::Unloaded, halted: true });
    assert!(end.callbacks.is_empty());
}

#[test]
fn flight_helmet_scenario() {
    let end = Schedule::new().run(&vec![LoadStatus::InProgress, LoadStatus::Loaded]);
    assert_eq!(end.next.state, LoadingState::Loaded);

    let mut scene_markers = 0;
    let mut node_markers: Vec<u64> = Vec::new();
    let mut world: Vec<NamedNode> = Vec::new();
    let mut pending: Vec<NamedNode> = Vec::new();
    for callback in end.callbacks {
        match callback {
            Callback::Spawn => {
                let root = spawn(Some(Model { default_scene: Some(0u8) })).ok().unwrap();
                assert_eq!(root.marker, Marker::Scene);
                scene_markers += 1;
                pending.push(NamedNode { entity: 11, name: String::from("RubberWood_low") });
                pending.push(NamedNode { entity: 12, name: String::from("Frame_low") });
            }
            Callback::Flush => world.append(&mut pending),
            Callback::Label => {
                let found = label(&world);
                assert_eq!(found.count, 2);
                node_markers = found.marked;
            }
        }
    }
    assert_eq!(scene_markers, 1);
    assert_eq!(node_markers, vec![11]);
}
