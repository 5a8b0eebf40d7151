use lumina::input::{Input, KeyState, MouseButton};

#[test]
fn press_marks_edge_and_hold() {
    let mut i = Input::new();
    i.on_key(17, KeyState::Pressed);
    assert!(i.key(17));
    assert!(i.key_pressed(17));
    assert!(!i.key(30));
}

#[test]
fn held_key_gives_one_edge() {
    let mut i = Input::new();
    i.on_key(17, KeyState::Pressed);
    i.end_frame();
    assert!(i.key(17));
    assert!(!i.key_pressed(17));
    // Auto-repeat: another press of a held key is not a new edge.
    i.on_key(17, KeyState::Pressed);
    assert!(!i.key_pressed(17));
}

#[test]
fn short_tap_is_seen() {
    let mut i = Input::new();
    i.on_key(57, KeyState::Pressed);
    i.on_key(57, KeyState::Released);
    assert!(!i.key(57));
    assert!(i.key_pressed(57));
    i.end_frame();
    assert!(!i.key_pressed(57));
}

#[test]
fn release_then_press_again_is_new_edge() {
    let mut i = Input::new();
    i.on_key(30, KeyState::Pressed);
    i.end_frame();
    i.on_key(30, KeyState::Released);
    i.on_key(30, KeyState::Pressed);
    assert!(i.key_pressed(30));
}

#[test]
fn mouse_buttons_are_distinct() {
    let mut i = Input::new();
    i.on_mouse_button(MouseButton::Other(0), KeyState::Pressed);
    assert!(i.mouse(MouseButton::Other(0)));
    assert!(!i.mouse(MouseButton::Left));
    assert!(!i.mouse(MouseButton::Middle));
    assert!(i.mouse_pressed(MouseButton::Other(0)));
    i.on_mouse_button(MouseButton::Left, KeyState::Pressed);
    i.end_frame();
    assert!(i.mouse(MouseButton::Left));
    assert!(!i.mouse_pressed(MouseButton::Left));
    i.on_mouse_button(MouseButton::Left, KeyState::Released);
    assert!(!i.mouse(MouseButton::Left));
    assert!(i.mouse(MouseButton::Other(0)));
}

#[test]
fn button_codes() {
    assert_eq!(MouseButton::Left.code(), 0);
    assert_eq!(MouseButton::Right.code(), 1);
    assert_eq!(MouseButton::Middle.code(), 2);
    assert_eq!(MouseButton::Other(7).code(), 10);
    assert_eq!(MouseButton::Other(u16::MAX).code(), 65538);
}

#[test]
fn keys_do_not_touch_buttons() {
    let mut i = Input::new();
    i.on_key(0, KeyState::Pressed);
    assert!(!i.mouse(MouseButton::Left));
    assert!(!i.mouse_pressed(MouseButton::Left));
}
