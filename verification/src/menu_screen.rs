//! The level menu.

use vstd::prelude::*;
use crate::fps_counter::FpsCounter;
use crate::game_state::{
    update_result_running, FrameInput, GameState, GameStateType, UpdateResult, UpdateResultType,
};
use crate::world::Frame;
use crate::game_state_utils::{did_click, did_press_key, pressed_now};
use crate::input::{Button, ButtonMap, ButtonState, Key, MouseButton};

verus! {

/// The title the menu shows.
pub const MENU_TITLE: &'static str = "WELCOME TO GUNGUN WARRIORS";

#[derive(Debug)]
pub struct MenuScreen {
    pub world_list: Vec<String>,
    pub selected_world_index: usize,
    pub fps_counter: FpsCounter,
}

/// The selection one entry further up; the first entry stays.
pub open spec fn moved_up(selected: usize) -> usize {
    if selected > 0 {
        (selected - 1) as usize
    } else {
        selected
    }
}

/// The selection one entry further down in a list of `count` entries; the
/// last entry stays.
pub open spec fn moved_down(selected: usize, count: nat) -> usize {
    if count > 0 && selected < count - 1 {
        (selected + 1) as usize
    } else {
        selected
    }
}

/// The selection after the keys of a frame: Up moves it up by one entry,
/// Down moves it down by two.
pub open spec fn selection_after(
    selected: usize,
    count: nat,
    key_states: Seq<(Button, ButtonState)>,
) -> usize {
    let raised = if pressed_now(key_states, Button::Keyboard(Key::Up)) {
        moved_up(selected)
    } else {
        selected
    };
    if pressed_now(key_states, Button::Keyboard(Key::Down)) {
        moved_down(moved_down(raised, count), count)
    } else {
        raised
    }
}

/// Whether the input of a frame confirms the selection: a click, or Return.
pub open spec fn confirms(
    key_states: Seq<(Button, ButtonState)>,
    mouse_states: Seq<(Button, ButtonState)>,
) -> bool {
    pressed_now(mouse_states, Button::Mouse(MouseButton::Left)) || pressed_now(
        key_states,
        Button::Keyboard(Key::Return),
    )
}

impl MenuScreen {
    /// Whether the selection names a level and is small enough to be
    /// reported as a result code.
    pub open spec fn wf(&self) -> bool {
        &&& self.selected_world_index < self.world_list@.len()
        &&& self.world_list@.len() <= i64::MAX
    }

    /// A menu over `world_list` with the first level selected.
    pub fn new(world_list: Vec<String>, fps_counter: FpsCounter) -> (r: MenuScreen)
        ensures
            r.world_list == world_list,
            r.selected_world_index == 0,
            r.fps_counter == fps_counter,
    {
        MenuScreen { world_list, selected_world_index: 0, fps_counter }
    }

    /// Whether the menu is well-formed.
    pub fn is_valid(&self) -> (r: bool)
        ensures
            r == self.wf(),
    {
        self.selected_world_index < self.world_list.len() && self.world_list.len() as u64
            <= 0x7fff_ffff_ffff_ffffu64
    }

    /// A frame: the keys move the selection, and a click or Return reports
    /// success with the selected index as the code.
    pub fn run_frame(&mut self, key_states: &ButtonMap, mouse_states: &ButtonMap) -> (r: UpdateResult)
        requires
            old(self).wf(),
        ensures
            final(self).wf(),
            final(self).world_list == old(self).world_list,
            final(self).fps_counter == old(self).fps_counter,
            final(self).selected_world_index == selection_after(
                old(self).selected_world_index,
                old(self).world_list@.len(),
                key_states@,
            ),
            r == if confirms(key_states@, mouse_states@) {
                UpdateResult {
                    result_type: UpdateResultType::Success,
                    result_code: final(self).selected_world_index as i64,
                }
            } else {
                UpdateResult::running()
            },
    {
        if did_press_key(key_states, Key::Up) {
            if self.selected_world_index > 0 {
                self.selected_world_index = self.selected_world_index - 1;
            }
        }
        if did_press_key(key_states, Key::Down) {
            if self.selected_world_index < self.world_list.len() - 1 {
                self.selected_world_index = self.selected_world_index + 1;
            }
        }
        if did_press_key(key_states, Key::Down) {
            if self.selected_world_index < self.world_list.len() - 1 {
                self.selected_world_index = self.selected_world_index + 1;
            }
        }
        if did_click(mouse_states) || did_press_key(key_states, Key::Return) {
            UpdateResult {
                result_type: UpdateResultType::Success,
                result_code: self.selected_world_index as i64,
            }
        } else {
            update_result_running()
        }
    }
}

impl GameState for MenuScreen {
    open spec fn ready(&self) -> bool {
        self.wf()
    }

    open spec fn state_type(&self) -> GameStateType {
        GameStateType::WorldSelect
    }

    fn update(&mut self, input: &FrameInput) -> (frame: Frame)
        ensures
            final(self).world_list == old(self).world_list,
            final(self).selected_world_index == selection_after(
                old(self).selected_world_index,
                old(self).world_list@.len(),
                input.key_states@,
            ),
            frame@ == crate::world::FrameView::quiet(
                if confirms(input.key_states@, input.mouse_states@) {
                    UpdateResult {
                        result_type: UpdateResultType::Success,
                        result_code: final(self).selected_world_index as i64,
                    }
                } else {
                    UpdateResult::running()
                },
            ),
    {
        Frame::quiet(self.run_frame(&input.key_states, &input.mouse_states))
    }

    fn get_type(&self) -> (r: GameStateType) {
        GameStateType::WorldSelect
    }
}

} // verus!
