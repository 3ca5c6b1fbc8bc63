use voxel_engine::input::Input;
use voxel_engine::light::{validate_light_count, LightUniformError, MAX_LIGHT_COUNT};
use voxel_engine::time::Time;

const KEY_W: u32 = 17;
const KEY_S: u32 = 31;
const BUTTON_LEFT: u32 = 0;

#[test]
fn press_sets_held_and_edge_state() {
    let mut input = Input::new();
    assert!(!input.pressed(KEY_W));
    input.event(KEY_W, true);
    assert!(input.pressed(KEY_W));
    assert!(input.just_pressed(KEY_W));
    assert!(!input.just_released(KEY_W));
}

#[test]
fn update_clears_edges_but_keeps_held_keys() {
    let mut input = Input::new();
    input.event(KEY_W, true);
    input.update();
    assert!(input.pressed(KEY_W));
    assert!(!input.just_pressed(KEY_W));
    input.event(KEY_W, false);
    assert!(!input.pressed(KEY_W));
    assert!(input.just_released(KEY_W));
    input.update();
    assert!(!input.just_released(KEY_W));
}

#[test]
fn mouse_buttons_track_like_keys() {
    let mut input = Input::new();
    input.mouse_event(BUTTON_LEFT, true);
    assert!(input.mouse_pressed(BUTTON_LEFT));
    assert!(input.mouse_just_pressed(BUTTON_LEFT));
    input.update();
    assert!(input.mouse_pressed(BUTTON_LEFT));
    assert!(!input.mouse_just_pressed(BUTTON_LEFT));
    input.mouse_event(BUTTON_LEFT, false);
    assert!(!input.mouse_pressed(BUTTON_LEFT));
    assert!(input.mouse_just_released(BUTTON_LEFT));
}

#[test]
fn key_events_leave_mouse_state_alone() {
    let mut input = Input::new();
    input.mouse_event(BUTTON_LEFT, true);
    input.event(KEY_W, true);
    input.event(KEY_W, false);
    assert!(input.mouse_pressed(BUTTON_LEFT));
    assert!(input.mouse_just_pressed(BUTTON_LEFT));
}

#[test]
fn key_value_is_the_signed_axis() {
    let mut input = Input::new();
    assert_eq!(input.key_value(KEY_W, KEY_S), 0);
    input.event(KEY_W, true);
    assert_eq!(input.key_value(KEY_W, KEY_S), 1);
    input.event(KEY_S, true);
    assert_eq!(input.key_value(KEY_W, KEY_S), 0);
    input.event(KEY_W, false);
    assert_eq!(input.key_value(KEY_W, KEY_S), -1);
}

#[test]
fn step_measures_the_distance_between_ticks() {
    let mut t = Time::starting_at(1_000);
    assert_eq!(t.delta(), 0);
    t.step(2_500);
    assert_eq!(t.delta(), 1_500);
    t.step(2_500);
    assert_eq!(t.delta(), 0);
}

#[test]
fn step_saturates_when_the_clock_goes_backwards() {
    let mut t = Time::starting_at(5_000);
    t.step(3_000);
    assert_eq!(t.delta(), 0);
    t.step(3_400);
    assert_eq!(t.delta(), 400);
}

#[test]
fn fresh_time_has_no_delta_and_update_runs() {
    let mut t = Time::new();
    assert_eq!(t.delta(), 0);
    t.update();
    t.update();
}

#[test]
fn light_counts_up_to_the_cap_are_accepted() {
    assert!(validate_light_count(0).is_ok());
    assert!(validate_light_count(MAX_LIGHT_COUNT).is_ok());
}

#[test]
fn too_many_lights_report_the_offered_count() {
    match validate_light_count(MAX_LIGHT_COUNT + 1) {
        Err(LightUniformError::TooManyLights(n)) => assert_eq!(n, MAX_LIGHT_COUNT + 1),
        Ok(()) => panic!("a count over the cap must be refused"),
    }
}
