//! The screen shown once the last level is won.

use vstd::prelude::*;
use crate::game_state::{
    update_result_running, update_result_success, FrameInput, GameState, GameStateType,
    UpdateResult,
};
use crate::world::{Frame, FrameView};
use crate::game_state_utils::{did_click, pressed_now};
use crate::input::{Button, ButtonMap, MouseButton};

verus! {

/// The line the screen shows.
pub const VICTORY_TEXT: &'static str = "VICTORY! Click to continue.";

#[derive(Copy, Clone, PartialEq, Eq, Structural, Debug)]
pub struct VictoryScreen {}

impl VictoryScreen {
    /// A frame: a click reports success, anything else lets the screen go on.
    #[allow(unused_variables)]
    pub fn run_frame(&mut self, key_states: &ButtonMap, mouse_states: &ButtonMap) -> (r: UpdateResult)
        ensures
            r == if pressed_now(mouse_states@, Button::Mouse(MouseButton::Left)) {
                UpdateResult::success()
            } else {
                UpdateResult::running()
            },
    {
        if did_click(mouse_states) {
            update_result_success()
        } else {
            update_result_running()
        }
    }
}

impl GameState for VictoryScreen {
    open spec fn ready(&self) -> bool {
        true
    }

    open spec fn state_type(&self) -> GameStateType {
        GameStateType::Victory
    }

    fn update(&mut self, input: &FrameInput) -> (frame: Frame)
        ensures
            frame@ == FrameView::quiet(
                if pressed_now(input.mouse_states@, Button::Mouse(MouseButton::Left)) {
                    UpdateResult::success()
                } else {
                    UpdateResult::running()
                },
            ),
    {
        Frame::quiet(self.run_frame(&input.key_states, &input.mouse_states))
    }

    fn get_type(&self) -> (r: GameStateType) {
        GameStateType::Victory
    }
}

} // verus!
