use pong::keys::{ElementState, Key, KeyboardInput, PressedKeys};
use pong::state::PongState;

fn press(key: Key) -> KeyboardInput {
    KeyboardInput { virtual_keycode: Some(key), state: ElementState::Pressed }
}

fn release(key: Key) -> KeyboardInput {
    KeyboardInput { virtual_keycode: Some(key), state: ElementState::Released }
}

#[test]
fn new_set_holds_no_key() {
    let keys = PressedKeys::new();
    assert_eq!(keys.len(), 0);
    assert!(!keys.contains(Key::Up));
    assert!(keys.is_distinct());
}

#[test]
fn press_adds_a_key_once() {
    let mut keys = PressedKeys::new();
    keys.press(Key::Up);
    assert_eq!(keys.keys, vec![Key::Up]);
    assert!(keys.contains(Key::Up));
    assert!(!keys.contains(Key::Down));
}

#[test]
fn pressing_twice_keeps_one_instance() {
    let mut keys = PressedKeys::new();
    keys.press(Key::W);
    keys.press(Key::W);
    assert_eq!(keys.keys, vec![Key::W]);
    assert_eq!(keys.keys.iter().filter(|k| **k == Key::W).count(), 1);
    assert!(keys.is_distinct());
}

#[test]
fn pressing_twice_among_others_keeps_one_instance() {
    let mut keys = PressedKeys::new();
    keys.press(Key::S);
    keys.press(Key::Other(7));
    keys.press(Key::S);
    keys.press(Key::Other(7));
    assert_eq!(keys.keys, vec![Key::S, Key::Other(7)]);
}

#[test]
fn releasing_an_absent_key_changes_nothing() {
    let mut keys = PressedKeys::new();
    keys.release(Key::Down);
    assert_eq!(keys.len(), 0);
    keys.press(Key::Up);
    keys.press(Key::W);
    keys.release(Key::Down);
    assert_eq!(keys.keys, vec![Key::Up, Key::W]);
    keys.release(Key::Other(3));
    assert_eq!(keys.keys, vec![Key::Up, Key::W]);
}

#[test]
fn release_removes_the_key_and_keeps_the_order() {
    let mut keys = PressedKeys::new();
    keys.press(Key::Up);
    keys.press(Key::W);
    keys.press(Key::S);
    keys.release(Key::W);
    assert_eq!(keys.keys, vec![Key::Up, Key::S]);
    assert!(!keys.contains(Key::W));
    keys.release(Key::Up);
    assert_eq!(keys.keys, vec![Key::S]);
    keys.release(Key::S);
    assert_eq!(keys.len(), 0);
}

#[test]
fn releasing_twice_is_releasing_once() {
    let mut keys = PressedKeys::new();
    keys.press(Key::Down);
    keys.press(Key::Up);
    keys.release(Key::Down);
    keys.release(Key::Down);
    assert_eq!(keys.keys, vec![Key::Up]);
}

#[test]
fn position_finds_the_first_occurrence() {
    let mut keys = PressedKeys::new();
    keys.press(Key::Other(1));
    keys.press(Key::Other(2));
    keys.press(Key::Down);
    assert_eq!(keys.position(Key::Other(1)), Some(0));
    assert_eq!(keys.position(Key::Other(2)), Some(1));
    assert_eq!(keys.position(Key::Down), Some(2));
    assert_eq!(keys.position(Key::Up), None);
}

#[test]
fn other_keys_are_told_apart_by_number() {
    let mut keys = PressedKeys::new();
    keys.press(Key::Other(10));
    keys.press(Key::Other(11));
    assert_eq!(keys.len(), 2);
    keys.release(Key::Other(10));
    assert_eq!(keys.keys, vec![Key::Other(11)]);
}

#[test]
fn a_list_with_a_repeated_key_is_not_distinct() {
    let keys = PressedKeys { keys: vec![Key::Up, Key::W, Key::Up] };
    assert!(!keys.is_distinct());
    let keys = PressedKeys { keys: vec![Key::Up, Key::W, Key::Down] };
    assert!(keys.is_distinct());
}

#[test]
fn apply_follows_the_state_of_the_event() {
    let mut keys = PressedKeys::new();
    keys.apply(press(Key::Up));
    assert_eq!(keys.keys, vec![Key::Up]);
    keys.apply(press(Key::Up));
    assert_eq!(keys.keys, vec![Key::Up]);
    keys.apply(release(Key::Up));
    assert_eq!(keys.len(), 0);
    keys.apply(release(Key::Up));
    assert_eq!(keys.len(), 0);
}

#[test]
fn an_event_without_a_key_is_ignored() {
    let mut keys = PressedKeys::new();
    keys.press(Key::S);
    keys.apply(KeyboardInput { virtual_keycode: None, state: ElementState::Pressed });
    keys.apply(KeyboardInput { virtual_keycode: None, state: ElementState::Released });
    assert_eq!(keys.keys, vec![Key::S]);
}

#[test]
fn input_changes_only_the_held_keys() {
    let mut state = PongState::new(800, 600);
    state.input(press(Key::W));
    state.input(press(Key::Other(42)));
    state.input(press(Key::W));
    assert_eq!(state.pressed_keycodes.keys, vec![Key::W, Key::Other(42)]);
    assert_eq!(state.left_paddle_y, 0);
    assert_eq!(state.right_paddle_y, 0);
    assert_eq!((state.ball.x, state.ball.y), (0, 0));
    assert_eq!(state.ball_direction, 80_000_000);
    assert!(!state.paddles_dirty);
    state.input(release(Key::W));
    assert_eq!(state.pressed_keycodes.keys, vec![Key::Other(42)]);
    state.input(release(Key::Up));
    assert_eq!(state.pressed_keycodes.keys, vec![Key::Other(42)]);
    assert!(state.is_valid());
}
