use voxel_engine::events::{AppEvent, Events};
use voxel_engine::scene::{SceneEvent, SceneState};

#[test]
fn change_scene_retires_the_old_instance() {
    let st: SceneState<i32, String> = SceneState::Loaded("menu".to_string());
    let (next, retired) = st.transition(SceneEvent::ChangeScene(7));
    // Exactly one exit() call is owed: the retired instance comes back once,
    // by value, and the new state is Unloaded with the new factory.
    assert_eq!(retired, Some("menu".to_string()));
    assert!(matches!(next, SceneState::Unloaded(7)));
}

#[test]
fn set_scene_retires_the_old_instance_and_loads_the_new() {
    let st: SceneState<i32, String> = SceneState::Loaded("menu".to_string());
    let (next, retired) = st.transition(SceneEvent::SetScene("game".to_string()));
    assert_eq!(retired, Some("menu".to_string()));
    match next {
        SceneState::Loaded(s) => assert_eq!(s, "game"),
        SceneState::Unloaded(_) => panic!("expected the new instance to be loaded"),
    }
}

#[test]
fn empty_directive_changes_nothing() {
    let st: SceneState<i32, String> = SceneState::Loaded("menu".to_string());
    let (next, retired) = st.transition(SceneEvent::Empty);
    assert!(retired.is_none());
    match next {
        SceneState::Loaded(s) => assert_eq!(s, "menu"),
        SceneState::Unloaded(_) => panic!("expected the instance to stay loaded"),
    }
}

#[test]
fn default_directive_is_empty() {
    let e: SceneEvent<i32, String> = SceneEvent::default();
    assert!(matches!(e, SceneEvent::Empty));
}

#[test]
fn loaded_accessor_borrows_the_live_instance() {
    let mut st: SceneState<i32, String> = SceneState::Loaded("menu".to_string());
    assert!(st.is_loaded());
    st.loaded().push_str("!");
    match st {
        SceneState::Loaded(s) => assert_eq!(s, "menu!"),
        SceneState::Unloaded(_) => panic!("expected the instance to stay loaded"),
    }
}

#[test]
fn unloaded_state_reports_not_loaded() {
    let st: SceneState<i32, String> = SceneState::Unloaded(3);
    assert!(!st.is_loaded());
}

#[test]
fn events_drain_in_insertion_order_within_one_tick() {
    let mut q: Events<u32> = Events::new();
    q.register(AppEvent::ApplyCamera(10));
    q.register(AppEvent::ApplyCamera(20));
    q.register(AppEvent::ApplyCamera(30));
    let evs = q.drain();
    let cams: Vec<u32> = evs.into_iter().map(|AppEvent::ApplyCamera(c)| c).collect();
    assert_eq!(cams, vec![10, 20, 30]);
}

#[test]
fn each_tick_starts_from_an_empty_queue() {
    // First tick registers events and drains them.
    let mut q: Events<u32> = Events::new();
    q.register(AppEvent::ApplyCamera(1));
    let first = q.drain();
    assert_eq!(first.len(), 1);
    // The next tick's queue is fresh: nothing carries over.
    let q2: Events<u32> = Events::new();
    let second = q2.drain();
    assert!(second.is_empty());
}
