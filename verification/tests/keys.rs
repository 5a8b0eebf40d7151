use lumina::keys::{code_to_scancode, Key};

#[test]
fn wasd_space_map_to_evdev_codes() {
    assert_eq!(code_to_scancode(Key::W), 17);
    assert_eq!(code_to_scancode(Key::A), 30);
    assert_eq!(code_to_scancode(Key::S), 31);
    assert_eq!(code_to_scancode(Key::D), 32);
    assert_eq!(code_to_scancode(Key::Space), 57);
}

#[test]
fn other_keys_map_to_evdev_codes() {
    assert_eq!(code_to_scancode(Key::Escape), 1);
    assert_eq!(code_to_scancode(Key::Enter), 28);
    assert_eq!(code_to_scancode(Key::ArrowUp), 103);
    assert_eq!(code_to_scancode(Key::ArrowDown), 108);
    assert_eq!(code_to_scancode(Key::ArrowLeft), 105);
    assert_eq!(code_to_scancode(Key::ArrowRight), 106);
}

#[test]
fn unbound_key_is_zero_and_named_keys_are_distinct() {
    assert_eq!(code_to_scancode(Key::Other), 0);
    let named = [
        Key::W,
        Key::A,
        Key::S,
        Key::D,
        Key::Space,
        Key::Escape,
        Key::Enter,
        Key::ArrowUp,
        Key::ArrowDown,
        Key::ArrowLeft,
        Key::ArrowRight,
    ];
    for (i, a) in named.iter().enumerate() {
        assert_ne!(code_to_scancode(*a), 0);
        for b in named.iter().skip(i + 1) {
            assert_ne!(code_to_scancode(*a), code_to_scancode(*b));
        }
    }
}

use lumina::input::KeyState;
use lumina::keys::respond_to_key;

#[test]
fn ui_consumed_keys_do_not_reach_the_game() {
    let r = respond_to_key(Key::Escape, KeyState::Pressed, true);
    assert!(r.forward.is_none());
    assert!(!r.exit);
    let r = respond_to_key(Key::W, KeyState::Pressed, true);
    assert!(r.forward.is_none());
    assert!(!r.exit);
}

#[test]
fn keys_go_to_input_and_escape_exits() {
    let r = respond_to_key(Key::W, KeyState::Pressed, false);
    assert!(matches!(r.forward, Some((17, KeyState::Pressed))));
    assert!(!r.exit);
    let r = respond_to_key(Key::Escape, KeyState::Released, false);
    assert!(matches!(r.forward, Some((1, KeyState::Released))));
    assert!(r.exit);
    let r = respond_to_key(Key::Other, KeyState::Pressed, false);
    assert!(matches!(r.forward, Some((0, KeyState::Pressed))));
    assert!(!r.exit);
}
