//! The outer state machine: from the level menu through the levels to the
//! victory screen.

use vstd::prelude::*;
use crate::game_state::{GameStateType, UpdateResult, UpdateResultType};

verus! {

/// What the host has to do after a frame so that the screen matches the
/// state of the game.
#[derive(Copy, Clone, PartialEq, Eq, Structural, Debug)]
pub enum Transition {
    /// Keep the screen.
    Stay,
    /// Build a fresh world from the level with this index and show it.
    LoadLevel(usize),
    /// Show the victory screen.
    ShowVictory,
}

#[derive(Debug)]
pub struct App {
    /// What kind of screen is shown.
    pub game_state: GameStateType,
    pub level_index: usize,
    pub world_list: Vec<String>,
}

/// The state of the game without the names of the levels.
pub struct AppView {
    pub game_state: GameStateType,
    pub level_index: usize,
    pub level_count: nat,
}

impl View for App {
    type V = AppView;

    open spec fn view(&self) -> AppView {
        AppView {
            game_state: self.game_state,
            level_index: self.level_index,
            level_count: self.world_list@.len(),
        }
    }
}

impl AppView {
    /// Whether the level being played is one of the list.
    pub open spec fn wf(self) -> bool {
        self.game_state == GameStateType::World ==> self.level_index < self.level_count
    }

    /// The level the host is to load, where a level was left or chosen and
    /// `index` is the one to go to: the level itself while the list has one
    /// under that index, the victory screen behind the last level.
    pub open spec fn entering(self, index: usize) -> (AppView, Transition) {
        if index < self.level_count {
            (
                AppView { game_state: GameStateType::World, level_index: index, ..self },
                Transition::LoadLevel(index),
            )
        } else {
            (
                AppView {
                    game_state: GameStateType::Victory,
                    level_index: self.level_count as usize,
                    ..self
                },
                Transition::ShowVictory,
            )
        }
    }

    /// The game and the host's part after the level menu reported `result`:
    /// a success whose code names a level enters that level; anything else
    /// keeps the menu.
    pub open spec fn after_world_select(self, result: UpdateResult) -> (AppView, Transition) {
        if result.result_type == UpdateResultType::Success && 0 <= result.result_code
            < self.level_count {
            self.entering(result.result_code as usize)
        } else {
            (self, Transition::Stay)
        }
    }

    /// The game and the host's part after a level reported `result`: a
    /// success goes on to the next level, or to the victory screen behind the
    /// last one; a failure enters the same level afresh.
    pub open spec fn after_world(self, result: UpdateResult) -> (AppView, Transition) {
        match result.result_type {
            UpdateResultType::Running => (self, Transition::Stay),
            UpdateResultType::Success => self.entering((self.level_index + 1) as usize),
            UpdateResultType::Fail => self.entering(self.level_index),
        }
    }

    /// The game and the host's part after the current screen reported
    /// `result`. The victory screen is the end: whatever it reports, it
    /// stays.
    pub open spec fn advanced(self, result: UpdateResult) -> (AppView, Transition) {
        match self.game_state {
            GameStateType::WorldSelect => self.after_world_select(result),
            GameStateType::World => self.after_world(result),
            GameStateType::Victory => (self, Transition::Stay),
        }
    }
}

impl App {
    /// A game that shows the menu over `world_list`.
    pub fn new(world_list: Vec<String>) -> (r: App)
        ensures
            r@ == (AppView {
                game_state: GameStateType::WorldSelect,
                level_index: 0,
                level_count: world_list@.len(),
            }),
            r.world_list == world_list,
            r@.wf(),
    {
        App { game_state: GameStateType::WorldSelect, level_index: 0, world_list }
    }

    /// Whether the game is well-formed.
    pub fn is_valid(&self) -> (r: bool)
        ensures
            r == self@.wf(),
    {
        match self.game_state {
            GameStateType::World => self.level_index < self.world_list.len(),
            _ => true,
        }
    }

    /// Goes to the level under `self.level_index`, or to the victory screen
    /// where the list has no such level.
    fn advance_level(&mut self) -> (t: Transition)
        ensures
            (final(self)@, t) == old(self)@.entering(old(self).level_index),
            final(self).world_list == old(self).world_list,
            final(self)@.wf(),
    {
        if self.level_index < self.world_list.len() {
            self.game_state = GameStateType::World;
            Transition::LoadLevel(self.level_index)
        } else {
            self.level_index = self.world_list.len();
            self.game_state = GameStateType::Victory;
            Transition::ShowVictory
        }
    }

    fn advance_game_state_from_world_select(&mut self, update_result: UpdateResult) -> (t: Transition)
        ensures
            (final(self)@, t) == old(self)@.after_world_select(update_result),
            final(self).world_list == old(self).world_list,
            old(self)@.wf() ==> final(self)@.wf(),
    {
        match update_result.result_type {
            UpdateResultType::Success => {
                if 0 <= update_result.result_code && (update_result.result_code as u64)
                    < self.world_list.len() as u64 {
                    self.level_index = update_result.result_code as usize;
                    self.advance_level()
                } else {
                    Transition::Stay
                }
            },
            _ => Transition::Stay,
        }
    }

    fn advance_game_state_from_world(&mut self, update_result: UpdateResult) -> (t: Transition)
        requires
            old(self)@.wf(),
            old(self).game_state == GameStateType::World,
        ensures
            (final(self)@, t) == old(self)@.after_world(update_result),
            final(self).world_list == old(self).world_list,
            final(self)@.wf(),
    {
        match update_result.result_type {
            UpdateResultType::Running => Transition::Stay,
            UpdateResultType::Success => {
                let count = self.world_list.len();
                assert(self.level_index < count);
                self.level_index += 1;
                self.advance_level()
            },
            UpdateResultType::Fail => self.advance_level(),
        }
    }

    /// Takes the report of the current screen and says what the host is to
    /// show next.
    pub fn advance_game_state(&mut self, update_result: UpdateResult) -> (t: Transition)
        requires
            old(self)@.wf(),
        ensures
            (final(self)@, t) == old(self)@.advanced(update_result),
            final(self).world_list == old(self).world_list,
            final(self)@.wf(),
    {
        match self.game_state {
            GameStateType::WorldSelect => self.advance_game_state_from_world_select(update_result),
            GameStateType::World => self.advance_game_state_from_world(update_result),
            GameStateType::Victory => Transition::Stay,
        }
    }
}

} // verus!
