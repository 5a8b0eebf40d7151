//! The physical keys the engine binds by default, and the Linux evdev
//! scancodes under which the input state keeps them.

use crate::input::KeyState;
use vstd::prelude::*;

verus! {

/// A physical key the engine knows by name; `Other` stands for the rest.
#[derive(Clone, Copy, Debug, PartialEq, Eq, Hash, Structural)]
pub enum Key {
    W,
    A,
    S,
    D,
    Space,
    Escape,
    Enter,
    ArrowUp,
    ArrowDown,
    ArrowLeft,
    ArrowRight,
    Other,
}

/// The evdev scancode of a key; keys without a binding get 0.
pub open spec fn key_scancode(k: Key) -> u32 {
    match k {
        Key::W => 17,
        Key::A => 30,
        Key::S => 31,
        Key::D => 32,
        Key::Space => 57,
        Key::Escape => 1,
        Key::Enter => 28,
        Key::ArrowUp => 103,
        Key::ArrowDown => 108,
        Key::ArrowLeft => 105,
        Key::ArrowRight => 106,
        Key::Other => 0,
    }
}

/// Translate a key to the rough Linux evdev scancode that the input state
/// and the scripts use.
pub fn code_to_scancode(key: Key) -> (r: u32)
    ensures
        r == key_scancode(key),
{
    match key {
        Key::W => 17,
        Key::A => 30,
        Key::S => 31,
        Key::D => 32,
        Key::Space => 57,
        Key::Escape => 1,
        Key::Enter => 28,
        Key::ArrowUp => 103,
        Key::ArrowDown => 108,
        Key::ArrowLeft => 105,
        Key::ArrowRight => 106,
        Key::Other => 0,
    }
}

/// Every named key has a scancode of its own, and none of them is 0, the
/// code of the keys without a binding.
pub proof fn law_named_keys_distinct(a: Key, b: Key)
    requires
        a != Key::Other,
    ensures
        key_scancode(a) != 0,
        key_scancode(a) == key_scancode(b) <==> a == b,
{
}

/// What the engine does with a keyboard event from the window.
#[derive(Clone, Copy, Debug)]
pub struct KeyResponse {
    /// The scancode and state to feed to the input state, if any.
    pub forward: Option<(u32, KeyState)>,
    /// Whether the engine shuts down.
    pub exit: bool,
}

/// The response to a key event: a key the editor UI took for itself does
/// not reach the game; any other key goes to the input state under its
/// scancode, and Escape (pressed or released) also shuts the engine down.
pub open spec fn key_response(key: Key, state: KeyState, consumed_by_ui: bool) -> KeyResponse {
    if consumed_by_ui {
        KeyResponse { forward: None, exit: false }
    } else {
        KeyResponse { forward: Some((key_scancode(key), state)), exit: key == Key::Escape }
    }
}

/// Decide what a keyboard event does.
pub fn respond_to_key(key: Key, state: KeyState, consumed_by_ui: bool) -> (r: KeyResponse)
    ensures
        r == key_response(key, state, consumed_by_ui),
{
    if consumed_by_ui {
        KeyResponse { forward: None, exit: false }
    } else {
        let exit = match key {
            Key::Escape => true,
            _ => false,
        };
        KeyResponse { forward: Some((code_to_scancode(key), state)), exit }
    }
}

/// A key the editor UI took never reaches the game nor shuts the engine
/// down; any other key reaches the input state with its own state, and only
/// Escape shuts the engine down.
pub proof fn law_key_routing(key: Key, state: KeyState)
    ensures
        key_response(key, state, true).forward is None,
        !key_response(key, state, true).exit,
        key_response(key, state, false).forward == Some((key_scancode(key), state)),
        key_response(key, state, false).exit <==> key == Key::Escape,
{
}

} // verus!
