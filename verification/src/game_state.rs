//! What every screen of the game reports after a frame.

use vstd::prelude::*;
use crate::input::ButtonMap;
use crate::world::{Contact, Frame};

verus! {

#[derive(Copy, Clone, PartialEq, Eq, Structural, Debug)]
pub enum UpdateResultType {
    Running,
    Success,
    Fail,
}

#[derive(Copy, Clone, PartialEq, Eq, Structural, Debug)]
pub enum GameStateType {
    WorldSelect,
    World,
    Victory,
}

/// The outcome of a frame: whether the screen goes on, and a code that the
/// level menu uses for the chosen level.
#[derive(Copy, Clone, PartialEq, Eq, Structural, Debug)]
pub struct UpdateResult {
    pub result_type: UpdateResultType,
    pub result_code: i64,
}

impl UpdateResult {
    /// The screen goes on.
    pub open spec fn running() -> UpdateResult {
        UpdateResult { result_type: UpdateResultType::Running, result_code: 0 }
    }

    /// The screen ended well.
    pub open spec fn success() -> UpdateResult {
        UpdateResult { result_type: UpdateResultType::Success, result_code: 0 }
    }

    /// The screen ended badly.
    pub open spec fn fail() -> UpdateResult {
        UpdateResult { result_type: UpdateResultType::Fail, result_code: 0 }
    }
}

/// Computes [`UpdateResult::running`].
pub fn update_result_running() -> (r: UpdateResult)
    ensures
        r == UpdateResult::running(),
{
    UpdateResult { result_type: UpdateResultType::Running, result_code: 0 }
}

/// Computes [`UpdateResult::success`].
pub fn update_result_success() -> (r: UpdateResult)
    ensures
        r == UpdateResult::success(),
{
    UpdateResult { result_type: UpdateResultType::Success, result_code: 0 }
}

/// Computes [`UpdateResult::fail`].
pub fn update_result_fail() -> (r: UpdateResult)
    ensures
        r == UpdateResult::fail(),
{
    UpdateResult { result_type: UpdateResultType::Fail, result_code: 0 }
}

/// What the host hands a screen for a frame.
#[derive(Debug)]
pub struct FrameInput {
    pub key_states: ButtonMap,
    pub mouse_states: ButtonMap,
    /// The pairs of collidables whose boxes overlap.
    pub contacts: Vec<Contact>,
    /// Whether the level's name has been on display for its second.
    pub timer_fired: bool,
}

/// A screen of the game: the level menu, a level, or the victory screen.
pub trait GameState {
    /// Whether the screen can take a frame.
    spec fn ready(&self) -> bool;

    /// Which screen it is.
    spec fn state_type(&self) -> GameStateType;

    /// One frame. A screen stays the screen it is and stays ready; what the
    /// frame does to it is said by each screen for itself.
    fn update(&mut self, input: &FrameInput) -> (frame: Frame)
        requires
            old(self).ready(),
        ensures
            final(self).ready(),
            final(self).state_type() == old(self).state_type(),
    ;

    fn get_type(&self) -> (r: GameStateType)
        ensures
            r == self.state_type(),
    ;
}

} // verus!
