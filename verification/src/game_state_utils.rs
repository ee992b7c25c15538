//! Questions every screen asks of the input.

use vstd::prelude::*;
use crate::input::{state_of, Button, ButtonMap, Key, MouseButton};

verus! {

/// Whether `button` went down in this frame.
pub open spec fn pressed_now(entries: Seq<(Button, crate::input::ButtonState)>, button: Button) -> bool {
    state_of(entries, button) matches Some(s) && s.pressed
}

/// Whether the left mouse button went down in this frame.
pub fn did_click(mouse_states: &ButtonMap) -> (r: bool)
    ensures
        r == pressed_now(mouse_states@, Button::Mouse(MouseButton::Left)),
{
    if let Some(value) = mouse_states.get(Button::Mouse(MouseButton::Left)) {
        if value.pressed {
            return true;
        }
    }
    false
}

/// Whether `key` went down in this frame.
pub fn did_press_key(key_states: &ButtonMap, key: Key) -> (r: bool)
    ensures
        r == pressed_now(key_states@, Button::Keyboard(key)),
{
    if let Some(value) = key_states.get(Button::Keyboard(key)) {
        if value.pressed {
            return true;
        }
    }
    false
}

} // verus!
