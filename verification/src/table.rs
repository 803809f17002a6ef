use vstd::prelude::*;
use crate::event::{ElementState, ModifiersState, MouseButton};
use crate::keys::{VirtualKeyCode, NUM_KEYS};

verus! {

/// Number of distinct mouse buttons, and so the length of a button table: the three named
/// buttons and one slot for each number that `MouseButton::Other` can carry.
pub const NUM_MOUSE_BUTTONS: usize = 256 + 3;

/// Keyboard input as a button state and a modifier state.
#[derive(Clone, Copy, Debug, PartialEq, Eq, Structural)]
pub struct KeyInput {
    /// Modifiers held while the event occurred.
    pub modifiers: ModifiersState,
    /// State of the key.
    pub state: ElementState,
}

impl KeyInput {
    /// The entry of a key that has never been touched: released, with no modifier.
    pub open spec fn untouched() -> KeyInput {
        KeyInput { modifiers: ModifiersState::none(), state: ElementState::Released }
    }
}

/// Mouse input as a button state and a modifier state.
#[derive(Clone, Copy, Debug, PartialEq, Eq, Structural)]
pub struct MouseInput {
    /// State of the button.
    pub state: ElementState,
    /// Modifiers held while the event occurred.
    pub modifiers: ModifiersState,
}

impl MouseInput {
    /// The entry of a button that has never been touched: released, with no modifier.
    pub open spec fn untouched() -> MouseInput {
        MouseInput { state: ElementState::Released, modifiers: ModifiersState::none() }
    }
}

/// Position of the mouse, in whole pixels.
#[derive(Clone, Copy)]
pub struct MousePosition(i32, i32);

/// Slot of a mouse button in a button table: the named buttons come first, then the numbered
/// ones in the order of their numbers.
pub open spec fn button_ordinal(button: MouseButton) -> int {
    match button {
        MouseButton::Left => 0,
        MouseButton::Right => 1,
        MouseButton::Middle => 2,
        MouseButton::Other(value) => 3 + value,
    }
}

/// Computes the slot of a mouse button; no two buttons share one, and none lies outside the
/// table.
pub fn mouse_button_to_index(button: MouseButton) -> (index: usize)
    ensures
        index == button_ordinal(button),
        index < NUM_MOUSE_BUTTONS,
{
    match button {
        MouseButton::Left => 0,
        MouseButton::Right => 1,
        MouseButton::Middle => 2,
        MouseButton::Other(value) => 3 + value as usize,
    }
}

/// One generation of the key table: an entry for every key code.
#[derive(Clone, Copy, Debug)]
pub(crate) struct Keys {
    cells: [KeyInput; NUM_KEYS],
}

impl View for Keys {
    type V = Map<VirtualKeyCode, KeyInput>;

    /// The table as a total map from key codes to entries.
    closed spec fn view(&self) -> Map<VirtualKeyCode, KeyInput> {
        Map::total(|code: VirtualKeyCode| self.cells@[code.ordinal()])
    }
}

impl Keys {
    /// The table has an entry for every key code.
    pub(crate) proof fn lemma_total(&self)
        ensures
            self@.dom() == Set::<VirtualKeyCode>::full(),
    {
        assert(self@.dom() =~= Set::<VirtualKeyCode>::full());
    }

    /// Reads the entry of one key code.
    pub(crate) fn get(&self, code: VirtualKeyCode) -> (entry: KeyInput)
        ensures
            entry == self@[code],
    {
        self.cells[code.index()]
    }

    /// Overwrites the entry of one key code and leaves every other entry as it was.
    pub(crate) fn set(&mut self, code: VirtualKeyCode, entry: KeyInput)
        ensures
            final(self)@ == old(self)@.insert(code, entry),
    {
        let index: usize = code.index();
        self.cells[index] = entry;
        assert(self@ =~= old(self)@.insert(code, entry));
    }
}

impl Default for Keys {
    /// The table in which no key has been touched.
    fn default() -> (keys: Keys)
        ensures
            keys@ == Map::<VirtualKeyCode, KeyInput>::total(|code: VirtualKeyCode| KeyInput::untouched()),
    {
        let default = KeyInput { state: ElementState::Released, modifiers: ModifiersState::empty() };
        let keys = Keys { cells: [default; NUM_KEYS] };
        proof {
            // every cell of the fill holds `default`
            vstd::array::axiom_spec_array_fill_for_copy_type::<KeyInput, NUM_KEYS>(default);
            assert(keys@ =~= Map::<VirtualKeyCode, KeyInput>::total(
                |code: VirtualKeyCode| KeyInput::untouched(),
            ));
        }
        keys
    }
}

/// One generation of the button table: an entry for every mouse button.
#[derive(Clone, Copy, Debug)]
pub(crate) struct MouseButtons {
    cells: [MouseInput; NUM_MOUSE_BUTTONS],
}

impl View for MouseButtons {
    type V = Map<MouseButton, MouseInput>;

    /// The table as a total map from mouse buttons to entries.
    closed spec fn view(&self) -> Map<MouseButton, MouseInput> {
        Map::total(|button: MouseButton| self.cells@[button_ordinal(button)])
    }
}

impl MouseButtons {
    /// The table has an entry for every mouse button.
    pub(crate) proof fn lemma_total(&self)
        ensures
            self@.dom() == Set::<MouseButton>::full(),
    {
        assert(self@.dom() =~= Set::<MouseButton>::full());
    }

    /// Reads the entry of one mouse button.
    pub(crate) fn get(&self, button: MouseButton) -> (entry: MouseInput)
        ensures
            entry == self@[button],
    {
        self.cells[mouse_button_to_index(button)]
    }

    /// Overwrites the entry of one mouse button and leaves every other entry as it was.
    pub(crate) fn set(&mut self, button: MouseButton, entry: MouseInput)
        ensures
            final(self)@ == old(self)@.insert(button, entry),
    {
        let index: usize = mouse_button_to_index(button);
        self.cells[index] = entry;
        assert(self@ =~= old(self)@.insert(button, entry));
    }
}

impl Default for MouseButtons {
    /// The table in which no button has been touched.
    fn default() -> (buttons: MouseButtons)
        ensures
            buttons@ == Map::<MouseButton, MouseInput>::total(|button: MouseButton| MouseInput::untouched()),
    {
        let default = MouseInput { state: ElementState::Released, modifiers: ModifiersState::empty() };
        let buttons = MouseButtons { cells: [default; NUM_MOUSE_BUTTONS] };
        proof {
            // every cell of the fill holds `default`
            vstd::array::axiom_spec_array_fill_for_copy_type::<MouseInput, NUM_MOUSE_BUTTONS>(default);
            assert(buttons@ =~= Map::<MouseButton, MouseInput>::total(
                |button: MouseButton| MouseInput::untouched(),
            ));
        }
        buttons
    }
}

} // verus!


