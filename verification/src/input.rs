//! Edge-state tracking of keys and mouse buttons.
//!
//! A button is `pressed` in the frame in which it went down, `held` in the
//! frames after that, and `released` in the frame in which it came up.

use vstd::prelude::*;

verus! {

/// The keys the rules tell apart.
#[derive(Copy, Clone, PartialEq, Eq, Structural, Debug)]
pub enum Key {
    Q,
    E,
    Up,
    Down,
    Return,
    Other(u32),
}

/// The mouse buttons the rules tell apart.
#[derive(Copy, Clone, PartialEq, Eq, Structural, Debug)]
pub enum MouseButton {
    Left,
    Right,
    Other(u32),
}

/// A key or a mouse button.
#[derive(Copy, Clone, PartialEq, Eq, Structural, Debug)]
pub enum Button {
    Keyboard(Key),
    Mouse(MouseButton),
}

/// What the input device reported.
#[derive(Copy, Clone, PartialEq, Eq, Structural, Debug)]
pub enum InputEvent {
    Press(Button),
    Release(Button),
    Other,
}

#[derive(Copy, Clone, PartialEq, Eq, Structural, Debug)]
pub struct ButtonState {
    /// Down for two frames or more.
    pub held: bool,
    /// Went down in this frame.
    pub pressed: bool,
    /// Came up in this frame.
    pub released: bool,
}

impl ButtonState {
    /// The state of a button that went down in this frame.
    pub open spec fn just_pressed() -> ButtonState {
        ButtonState { held: false, pressed: true, released: false }
    }

    /// The state of a button that came up in this frame.
    pub open spec fn just_released() -> ButtonState {
        ButtonState { held: false, pressed: false, released: true }
    }

    /// The state one frame later: a press turns into a hold, a release is
    /// forgotten, anything else stays.
    pub open spec fn advanced(self) -> ButtonState {
        if self.pressed {
            ButtonState { held: true, pressed: false, released: self.released }
        } else if self.released {
            ButtonState { held: self.held, pressed: false, released: false }
        } else {
            self
        }
    }

    /// Computes [`ButtonState::advanced`].
    pub fn advance(&mut self)
        ensures
            *final(self) == old(self).advanced(),
    {
        if self.pressed {
            self.held = true;
            self.pressed = false;
        } else if self.released {
            self.released = false;
        }
    }
}

/// The index of the first entry of `entries` for `button`; the length of
/// `entries` where there is none.
pub open spec fn find(entries: Seq<(Button, ButtonState)>, button: Button) -> int
    decreases entries.len(),
{
    if entries.len() == 0 {
        0
    } else {
        let before = find(entries.drop_last(), button);
        if before < entries.len() - 1 {
            before
        } else if entries.last().0 == button {
            entries.len() - 1
        } else {
            entries.len() as int
        }
    }
}

/// [`find`] names the first entry for the button, if there is one.
pub proof fn lemma_find(entries: Seq<(Button, ButtonState)>, button: Button)
    ensures
        0 <= find(entries, button) <= entries.len(),
        forall|j: int| 0 <= j < find(entries, button) ==> (#[trigger] entries[j]).0 != button,
        find(entries, button) < entries.len() ==> entries[find(entries, button)].0 == button,
    decreases entries.len(),
{
    if entries.len() > 0 {
        lemma_find(entries.drop_last(), button);
        let before = find(entries.drop_last(), button);
        assert forall|j: int| 0 <= j < find(entries, button) implies (#[trigger] entries[j]).0
            != button by {
            if j < entries.len() - 1 {
                assert(entries.drop_last()[j] == entries[j]);
            }
        }
        if before < entries.len() - 1 {
            assert(entries.drop_last()[before] == entries[before]);
        }
    }
}

/// The state recorded for `button`, if any.
pub open spec fn state_of(entries: Seq<(Button, ButtonState)>, button: Button) -> Option<
    ButtonState,
> {
    if find(entries, button) < entries.len() {
        Some(entries[find(entries, button)].1)
    } else {
        None
    }
}

/// `entries` with `state` recorded for `button`: in place where the button
/// has an entry, at the end where it has none.
pub open spec fn recorded(
    entries: Seq<(Button, ButtonState)>,
    button: Button,
    state: ButtonState,
) -> Seq<(Button, ButtonState)> {
    if find(entries, button) < entries.len() {
        entries.update(find(entries, button), (button, state))
    } else {
        entries.push((button, state))
    }
}

/// `entries` one frame later: every state advanced, the order kept.
pub open spec fn advanced(entries: Seq<(Button, ButtonState)>) -> Seq<(Button, ButtonState)> {
    entries.map_values(|e: (Button, ButtonState)| (e.0, e.1.advanced()))
}

/// Whether no button has two entries.
pub open spec fn distinct(entries: Seq<(Button, ButtonState)>) -> bool {
    forall|i: int, j: int|
        0 <= i < j < entries.len() ==> (#[trigger] entries[i]).0 != (#[trigger] entries[j]).0
}

/// The states of the buttons seen so far, walked in the order in which the
/// buttons were first seen.
#[derive(Debug)]
pub struct ButtonMap {
    pub entries: Vec<(Button, ButtonState)>,
}

impl View for ButtonMap {
    type V = Seq<(Button, ButtonState)>;

    open spec fn view(&self) -> Seq<(Button, ButtonState)> {
        self.entries@
    }
}

impl ButtonMap {
    /// The map that has seen no button.
    pub fn new() -> (r: ButtonMap)
        ensures
            r@ == Seq::<(Button, ButtonState)>::empty(),
            distinct(r@),
    {
        ButtonMap { entries: Vec::new() }
    }

    /// The index of the first entry for `button`, or the number of entries.
    fn position(&self, button: Button) -> (r: usize)
        ensures
            r == find(self@, button),
            r <= self@.len(),
    {
        let mut i: usize = 0;
        while i < self.entries.len()
            invariant
                i <= self@.len(),
                forall|j: int| 0 <= j < i ==> (#[trigger] self@[j]).0 != button,
            decreases self@.len() - i,
        {
            if self.entries[i].0 == button {
                proof {
                    lemma_find(self@, button);
                }
                return i;
            }
            i += 1;
        }
        proof {
            lemma_find(self@, button);
        }
        i
    }

    /// The state recorded for `button`, if any.
    pub fn get(&self, button: Button) -> (r: Option<ButtonState>)
        ensures
            r == state_of(self@, button),
    {
        let i = self.position(button);
        if i < self.entries.len() {
            Some(self.entries[i].1)
        } else {
            None
        }
    }

    /// Records `state` for `button`, replacing what was recorded for it.
    pub fn insert(&mut self, button: Button, state: ButtonState)
        ensures
            final(self)@ == recorded(old(self)@, button, state),
            distinct(old(self)@) ==> distinct(final(self)@),
            state_of(final(self)@, button) == Some(state),
    {
        let i = self.position(button);
        proof {
            lemma_find(self@, button);
        }
        if i < self.entries.len() {
            self.entries[i] = (button, state);
        } else {
            self.entries.push((button, state));
        }
        proof {
            lemma_find(self@, button);
            assert(find(self@, button) == i) by {
                if find(self@, button) < i {
                    assert(old(self)@[find(self@, button)].0 != button);
                }
            }
        }
    }

    /// Moves every button on by one frame.
    pub fn advance(&mut self)
        ensures
            final(self)@ == advanced(old(self)@),
            distinct(old(self)@) ==> distinct(final(self)@),
    {
        let mut i: usize = 0;
        while i < self.entries.len()
            invariant
                i <= self@.len(),
                self@.len() == old(self)@.len(),
                forall|j: int| 0 <= j < i ==> (#[trigger] self@[j]) == advanced(old(self)@)[j],
                forall|j: int| i <= j < self@.len() ==> (#[trigger] self@[j]) == old(self)@[j],
            decreases self@.len() - i,
        {
            let (button, state) = self.entries[i];
            let mut state = state;
            state.advance();
            self.entries[i] = (button, state);
            i += 1;
        }
        proof {
            assert(self@ =~= advanced(old(self)@));
        }
    }
}

/// The key map after `event`: a press of a key that is not being held records
/// a fresh press; a press of a held key is ignored; anything else changes
/// nothing.
pub open spec fn after_keyboard_pressed(
    keys: Seq<(Button, ButtonState)>,
    event: InputEvent,
) -> Seq<(Button, ButtonState)> {
    match event {
        InputEvent::Press(Button::Keyboard(key)) => {
            if state_of(keys, Button::Keyboard(key)) matches Some(s) && s.held {
                keys
            } else {
                recorded(keys, Button::Keyboard(key), ButtonState::just_pressed())
            }
        },
        _ => keys,
    }
}

/// The key map after `event`: the release of a key records a release.
pub open spec fn after_keyboard_released(
    keys: Seq<(Button, ButtonState)>,
    event: InputEvent,
) -> Seq<(Button, ButtonState)> {
    match event {
        InputEvent::Release(Button::Keyboard(key)) => recorded(
            keys,
            Button::Keyboard(key),
            ButtonState::just_released(),
        ),
        _ => keys,
    }
}

/// The mouse map after `event`: the press of a button records a fresh press.
pub open spec fn after_mouse_pressed(
    buttons: Seq<(Button, ButtonState)>,
    event: InputEvent,
) -> Seq<(Button, ButtonState)> {
    match event {
        InputEvent::Press(Button::Mouse(button)) => recorded(
            buttons,
            Button::Mouse(button),
            ButtonState::just_pressed(),
        ),
        _ => buttons,
    }
}

/// The mouse map after `event`: the release of a button records a release.
pub open spec fn after_mouse_released(
    buttons: Seq<(Button, ButtonState)>,
    event: InputEvent,
) -> Seq<(Button, ButtonState)> {
    match event {
        InputEvent::Release(Button::Mouse(button)) => recorded(
            buttons,
            Button::Mouse(button),
            ButtonState::just_released(),
        ),
        _ => buttons,
    }
}

fn gather_keyboard_pressed(input: &InputEvent, key_states: &mut ButtonMap)
    ensures
        final(key_states)@ == after_keyboard_pressed(old(key_states)@, *input),
        distinct(old(key_states)@) ==> distinct(final(key_states)@),
{
    if let InputEvent::Press(Button::Keyboard(key)) = *input {
        if let Some(ks) = key_states.get(Button::Keyboard(key)) {
            if ks.held {
                return ;
            }
        }
        let key_state = ButtonState { held: false, pressed: true, released: false };
        key_states.insert(Button::Keyboard(key), key_state);
    }
}

fn gather_keyboard_released(input: &InputEvent, key_states: &mut ButtonMap)
    ensures
        final(key_states)@ == after_keyboard_released(old(key_states)@, *input),
        distinct(old(key_states)@) ==> distinct(final(key_states)@),
{
    if let InputEvent::Release(Button::Keyboard(key)) = *input {
        let key_state = ButtonState { held: false, pressed: false, released: true };
        key_states.insert(Button::Keyboard(key), key_state);
    }
}

fn gather_mouse_pressed(input: &InputEvent, mouse_states: &mut ButtonMap)
    ensures
        final(mouse_states)@ == after_mouse_pressed(old(mouse_states)@, *input),
        distinct(old(mouse_states)@) ==> distinct(final(mouse_states)@),
{
    if let InputEvent::Press(Button::Mouse(button)) = *input {
        let key_state = ButtonState { held: false, pressed: true, released: false };
        mouse_states.insert(Button::Mouse(button), key_state);
    }
}

fn gather_mouse_released(input: &InputEvent, mouse_states: &mut ButtonMap)
    ensures
        final(mouse_states)@ == after_mouse_released(old(mouse_states)@, *input),
        distinct(old(mouse_states)@) ==> distinct(final(mouse_states)@),
{
    if let InputEvent::Release(Button::Mouse(button)) = *input {
        let key_state = ButtonState { held: false, pressed: false, released: true };
        mouse_states.insert(Button::Mouse(button), key_state);
    }
}

/// Takes one device event into the two maps: key events into `key_states`,
/// mouse button events into `mouse_states`.
pub fn gather_input(input: &InputEvent, key_states: &mut ButtonMap, mouse_states: &mut ButtonMap)
    ensures
        final(key_states)@ == after_keyboard_released(
            after_keyboard_pressed(old(key_states)@, *input),
            *input,
        ),
        final(mouse_states)@ == after_mouse_released(
            after_mouse_pressed(old(mouse_states)@, *input),
            *input,
        ),
        distinct(old(key_states)@) ==> distinct(final(key_states)@),
        distinct(old(mouse_states)@) ==> distinct(final(mouse_states)@),
{
    gather_keyboard_pressed(input, key_states);
    gather_keyboard_released(input, key_states);
    gather_mouse_pressed(input, mouse_states);
    gather_mouse_released(input, mouse_states);
}

/// Ends a frame: every press becomes a hold and every release is forgotten.
pub fn update_input(key_states: &mut ButtonMap, mouse_states: &mut ButtonMap)
    ensures
        final(key_states)@ == advanced(old(key_states)@),
        final(mouse_states)@ == advanced(old(mouse_states)@),
        distinct(old(key_states)@) ==> distinct(final(key_states)@),
        distinct(old(mouse_states)@) ==> distinct(final(mouse_states)@),
{
    key_states.advance();
    mouse_states.advance();
}

/// At the end of a frame no press and no release is left over: a button
/// that was pressed is held, and every other button keeps its hold.
pub proof fn lemma_advanced_states(entries: Seq<(Button, ButtonState)>)
    ensures
        advanced(entries).len() == entries.len(),
        forall|i: int|
            0 <= i < entries.len() ==> {
                let before = entries[i];
                let after = #[trigger] advanced(entries)[i];
                &&& after.0 == before.0
                &&& !after.1.pressed
                &&& after.1.held == (before.1.held || before.1.pressed)
                &&& after.1.released == (before.1.released && before.1.pressed)
            },
{
}

} // verus!
