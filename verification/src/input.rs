//! Keyboard and mouse button state: what is held down, and what went down
//! during the current frame. Cursor position and wheel motion are
//! floating-point and are tracked by the host around this state.

use std::collections::HashSet;
use vstd::prelude::*;

verus! {

broadcast use vstd::std_specs::hash::group_hash_axioms;

#[derive(Clone, Copy, Debug, PartialEq, Eq, Hash, Structural)]
pub enum MouseButton {
    Left,
    Right,
    Middle,
    Other(u16),
}

#[derive(Clone, Copy, Debug, PartialEq, Eq, Hash, Structural)]
pub enum KeyState {
    Pressed,
    Released,
}

/// The number under which a mouse button is kept in the button sets.
/// Distinct buttons get distinct numbers.
pub open spec fn button_code(b: MouseButton) -> u32 {
    match b {
        MouseButton::Left => 0,
        MouseButton::Right => 1,
        MouseButton::Middle => 2,
        MouseButton::Other(n) => (3 + n) as u32,
    }
}

/// Distinct buttons are kept under distinct numbers.
pub proof fn lemma_button_code_injective(a: MouseButton, b: MouseButton)
    ensures
        button_code(a) == button_code(b) <==> a == b,
{
}

impl MouseButton {
    pub fn code(self) -> (r: u32)
        ensures
            r == button_code(self),
    {
        match self {
            MouseButton::Left => 0,
            MouseButton::Right => 1,
            MouseButton::Middle => 2,
            MouseButton::Other(n) => 3 + n as u32,
        }
    }
}

/// The abstract input state: four sets.
pub struct InputView {
    pub keys_down: Set<u32>,
    pub keys_pressed: Set<u32>,
    pub buttons_down: Set<MouseButton>,
    pub buttons_pressed: Set<MouseButton>,
}

/// The input state after a key event: a press holds the key and, unless it
/// was already held, marks it pressed this frame; a release lets go of it
/// and leaves this frame's press marks alone.
pub open spec fn after_key(v: InputView, code: u32, state: KeyState) -> InputView {
    match state {
        KeyState::Pressed => InputView {
            keys_down: v.keys_down.insert(code),
            keys_pressed: if v.keys_down.contains(code) {
                v.keys_pressed
            } else {
                v.keys_pressed.insert(code)
            },
            ..v
        },
        KeyState::Released => InputView { keys_down: v.keys_down.remove(code), ..v },
    }
}

/// The input state after a mouse button event, by the same rules as keys.
pub open spec fn after_button(v: InputView, b: MouseButton, state: KeyState) -> InputView {
    match state {
        KeyState::Pressed => InputView {
            buttons_down: v.buttons_down.insert(b),
            buttons_pressed: if v.buttons_down.contains(b) {
                v.buttons_pressed
            } else {
                v.buttons_pressed.insert(b)
            },
            ..v
        },
        KeyState::Released => InputView { buttons_down: v.buttons_down.remove(b), ..v },
    }
}

/// The input state at the end of a frame: press marks cleared, held keys
/// and buttons still held.
pub open spec fn after_end_frame(v: InputView) -> InputView {
    InputView { keys_pressed: Set::empty(), buttons_pressed: Set::empty(), ..v }
}

/// Held keys and buttons, and the ones that went down this frame.
pub struct Input {
    keys_down: HashSet<u32>,
    keys_pressed_this_frame: HashSet<u32>,
    mouse_down: HashSet<u32>,
    mouse_pressed_this_frame: HashSet<u32>,
}

/// The buttons whose numbers lie in `codes`.
pub open spec fn buttons_of(codes: Set<u32>) -> Set<MouseButton> {
    Set::new(|b: MouseButton| codes.contains(button_code(b)))
}

impl View for Input {
    type V = InputView;

    closed spec fn view(&self) -> InputView {
        InputView {
            keys_down: self.keys_down@,
            keys_pressed: self.keys_pressed_this_frame@,
            buttons_down: buttons_of(self.mouse_down@),
            buttons_pressed: buttons_of(self.mouse_pressed_this_frame@),
        }
    }
}

impl Default for Input {
    /// The same as `Input::new`: nothing held, nothing pressed.
    fn default() -> (r: Input)
        ensures
            r@.keys_down == Set::<u32>::empty(),
            r@.keys_pressed == Set::<u32>::empty(),
            r@.buttons_down == Set::<MouseButton>::empty(),
            r@.buttons_pressed == Set::<MouseButton>::empty(),
    {
        Input::new()
    }
}

impl Input {
    /// Nothing held, nothing pressed.
    pub fn new() -> (r: Input)
        ensures
            r@.keys_down == Set::<u32>::empty(),
            r@.keys_pressed == Set::<u32>::empty(),
            r@.buttons_down == Set::<MouseButton>::empty(),
            r@.buttons_pressed == Set::<MouseButton>::empty(),
    {
        let r = Input {
            keys_down: HashSet::new(),
            keys_pressed_this_frame: HashSet::new(),
            mouse_down: HashSet::new(),
            mouse_pressed_this_frame: HashSet::new(),
        };
        assert(buttons_of(Set::<u32>::empty()) =~= Set::<MouseButton>::empty());
        r
    }

    /// Feed a key event. `scancode` is the physical key, so controls are
    /// layout-independent. A press of a key that is already held does not
    /// count as a new press.
    pub fn on_key(&mut self, scancode: u32, state: KeyState)
        ensures
            final(self)@ == after_key(old(self)@, scancode, state),
    {
        match state {
            KeyState::Pressed => {
                if self.keys_down.insert(scancode) {
                    self.keys_pressed_this_frame.insert(scancode);
                }
            },
            KeyState::Released => {
                self.keys_down.remove(&scancode);
            },
        }
    }

    /// Feed a mouse button event; same rules as for keys.
    pub fn on_mouse_button(&mut self, btn: MouseButton, state: KeyState)
        ensures
            final(self)@ == after_button(old(self)@, btn, state),
    {
        let code = btn.code();
        let ghost old_down = self.mouse_down@;
        let ghost old_pressed = self.mouse_pressed_this_frame@;
        match state {
            KeyState::Pressed => {
                if self.mouse_down.insert(code) {
                    self.mouse_pressed_this_frame.insert(code);
                }
                assert(buttons_of(old_down.insert(code)) =~= buttons_of(old_down).insert(btn)) by {
                    assert forall|b: MouseButton|
                        button_code(b) == code implies b == btn by {
                        lemma_button_code_injective(b, btn);
                    }
                }
                assert(buttons_of(old_pressed.insert(code)) =~= buttons_of(old_pressed).insert(
                    btn,
                )) by {
                    assert forall|b: MouseButton|
                        button_code(b) == code implies b == btn by {
                        lemma_button_code_injective(b, btn);
                    }
                }
            },
            KeyState::Released => {
                self.mouse_down.remove(&code);
                assert(buttons_of(old_down.remove(code)) =~= buttons_of(old_down).remove(btn)) by {
                    assert forall|b: MouseButton|
                        button_code(b) == code implies b == btn by {
                        lemma_button_code_injective(b, btn);
                    }
                }
            },
        }
    }

    /// Is the key currently held down?
    pub fn key(&self, scancode: u32) -> (r: bool)
        ensures
            r == self@.keys_down.contains(scancode),
    {
        self.keys_down.contains(&scancode)
    }

    /// Was the key pressed this frame (edge-triggered)?
    pub fn key_pressed(&self, scancode: u32) -> (r: bool)
        ensures
            r == self@.keys_pressed.contains(scancode),
    {
        self.keys_pressed_this_frame.contains(&scancode)
    }

    pub fn mouse(&self, btn: MouseButton) -> (r: bool)
        ensures
            r == self@.buttons_down.contains(btn),
    {
        self.mouse_down.contains(&btn.code())
    }

    pub fn mouse_pressed(&self, btn: MouseButton) -> (r: bool)
        ensures
            r == self@.buttons_pressed.contains(btn),
    {
        self.mouse_pressed_this_frame.contains(&btn.code())
    }

    /// Call at the end of the frame to clear the per-frame press edges.
    /// Held keys and buttons stay held.
    pub fn end_frame(&mut self)
        ensures
            final(self)@ == after_end_frame(old(self)@),
    {
        self.keys_pressed_this_frame.clear();
        self.mouse_pressed_this_frame.clear();
        assert(buttons_of(Set::<u32>::empty()) =~= Set::<MouseButton>::empty());
    }
}

/// Edges are per frame: a key pressed in one frame and still held in the
/// next is not pressed again when the next press event for it arrives
/// (e.g. keyboard auto-repeat).
pub proof fn law_held_key_gives_one_edge(v: InputView, code: u32)
    ensures
        !after_key(after_end_frame(after_key(v, code, KeyState::Pressed)), code, KeyState::Pressed)
            .keys_pressed.contains(code),
{
}

/// A press mark survives the release of its key until the frame ends, so a
/// tap shorter than a frame is still seen.
pub proof fn law_short_tap_is_seen(v: InputView, code: u32)
    requires
        !v.keys_down.contains(code),
    ensures
        after_key(after_key(v, code, KeyState::Pressed), code, KeyState::Released).keys_pressed.contains(
            code,
        ),
        !after_key(after_key(v, code, KeyState::Pressed), code, KeyState::Released).keys_down.contains(
            code,
        ),
{
}

/// The end of a frame clears every press mark and lets go of nothing: what
/// was held stays held.
pub proof fn law_end_frame_keeps_held(v: InputView)
    ensures
        after_end_frame(v).keys_pressed == Set::<u32>::empty(),
        after_end_frame(v).buttons_pressed == Set::<MouseButton>::empty(),
        after_end_frame(v).keys_down == v.keys_down,
        after_end_frame(v).buttons_down == v.buttons_down,
{
}

/// For mouse buttons as for keys, a press mark survives the release of its
/// button until the frame ends, so a click shorter than a frame is still
/// seen; the button is no longer held.
pub proof fn law_short_click_is_seen(v: InputView, b: MouseButton)
    requires
        !v.buttons_down.contains(b),
    ensures
        after_button(after_button(v, b, KeyState::Pressed), b, KeyState::Released).buttons_pressed.contains(b),
        !after_button(after_button(v, b, KeyState::Pressed), b, KeyState::Released).buttons_down.contains(b),
{
}

/// A press of a button that is not held marks it held and pressed this
/// frame; a button already held gives no new press mark. Button events
/// leave the keys alone, and key events leave the buttons alone.
pub proof fn law_button_press_edges(v: InputView, b: MouseButton, code: u32, s: KeyState)
    ensures
        after_button(v, b, KeyState::Pressed).buttons_down.contains(b),
        !v.buttons_down.contains(b) ==> after_button(v, b, KeyState::Pressed).buttons_pressed.contains(b),
        v.buttons_down.contains(b) ==> after_button(v, b, KeyState::Pressed).buttons_pressed
            == v.buttons_pressed,
        !after_button(v, b, KeyState::Released).buttons_down.contains(b),
        after_button(v, b, KeyState::Released).buttons_pressed == v.buttons_pressed,
        after_button(v, b, s).keys_down == v.keys_down,
        after_button(v, b, s).keys_pressed == v.keys_pressed,
        after_key(v, code, s).buttons_down == v.buttons_down,
        after_key(v, code, s).buttons_pressed == v.buttons_pressed,
{
}

/// A release never takes back this frame's press marks, for keys and
/// buttons alike.
pub proof fn law_release_keeps_press_marks(v: InputView, code: u32, b: MouseButton)
    ensures
        after_key(v, code, KeyState::Released).keys_pressed == v.keys_pressed,
        !after_key(v, code, KeyState::Released).keys_down.contains(code),
        after_button(v, b, KeyState::Released).buttons_pressed == v.buttons_pressed,
{
}

} // verus!
