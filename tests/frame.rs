use sdl3cube::frame::{FULL_TURN, KEY_A, KEY_D, KEY_E, KEY_Q, KEY_S, KEY_W, TURN_MILLIS};
use sdl3cube::{advance_rotation, FrameState, InputEvent};

#[test]
fn initial_state() {
    let s = FrameState::new();
    assert_eq!(s.camera_position, [0, 50, -50]);
    assert_eq!(s.camera_target, [0, 0, 0]);
    assert_eq!(s.rotation, 0);
    assert!(!s.quit);
}

#[test]
fn camera_keys_move_camera_and_target() {
    let mut s = FrameState::new();
    s.handle_event(InputEvent::KeyUp(KEY_Q));
    assert_eq!(s.camera_position, [5, 50, -50]);
    assert_eq!(s.camera_target, [5, 0, 0]);
    s.handle_event(InputEvent::KeyUp(KEY_A));
    s.handle_event(InputEvent::KeyUp(KEY_A));
    assert_eq!(s.camera_position, [-5, 50, -50]);
    s.handle_event(InputEvent::KeyUp(KEY_W));
    assert_eq!(s.camera_position, [-5, 55, -50]);
    s.handle_event(InputEvent::KeyUp(KEY_S));
    s.handle_event(InputEvent::KeyUp(KEY_E));
    assert_eq!(s.camera_position, [-5, 50, -45]);
    s.handle_event(InputEvent::KeyUp(KEY_D));
    s.handle_event(InputEvent::KeyUp(KEY_D));
    assert_eq!(s.camera_position, [-5, 50, -55]);
    assert_eq!(s.camera_target, [-5, 0, -5]);
    assert!(!s.quit);
}

#[test]
fn other_keys_and_events_change_nothing() {
    let mut s = FrameState::new();
    s.handle_event(InputEvent::KeyUp(0x7a));
    s.handle_event(InputEvent::Other);
    assert_eq!(s, FrameState::new());
}

#[test]
fn quit_event_sets_flag() {
    let mut s = FrameState::new();
    s.handle_event(InputEvent::Quit);
    assert!(s.quit);
    s.handle_event(InputEvent::Other);
    assert!(s.quit);
}

#[test]
fn move_past_i32_range_is_ignored() {
    let mut s = FrameState::new();
    s.camera_position = [i32::MAX - 2, 0, 0];
    s.handle_event(InputEvent::KeyUp(KEY_Q));
    assert_eq!(s.camera_position, [i32::MAX - 2, 0, 0]);
    assert_eq!(s.camera_target, [0, 0, 0]);
}

#[test]
fn rotation_advances_at_speed() {
    assert_eq!(advance_rotation(0, 1000), 32_000);
    assert_eq!(advance_rotation(0, 0), 0);
    assert_eq!(advance_rotation(359_990, 1), 22);
}

#[test]
fn rotation_full_turn_returns_to_start() {
    assert_eq!(TURN_MILLIS * 32, FULL_TURN as u64);
    assert_eq!(advance_rotation(12_345, TURN_MILLIS), 12_345);
    let mut s = FrameState::new();
    s.advance(100);
    let start = s.rotation;
    for step in [1000u64, 250, 4000, 6000] {
        s.advance(step);
        assert!(s.rotation < FULL_TURN);
    }
    assert_eq!(s.rotation, start);
}

#[test]
fn rotation_handles_huge_elapsed_times() {
    let r = advance_rotation(0, u64::MAX);
    assert!(r < FULL_TURN);
    assert_eq!(r as u128, (32u128 * u64::MAX as u128) % 360_000);
}
