use vstd::prelude::*;
use crate::keys::VirtualKeyCode;

verus! {

/// Whether a key or a button is held down.
#[derive(Clone, Copy, Debug, PartialEq, Eq, Hash, Structural)]
pub enum ElementState {
    Pressed,
    Released,
}

/// Snapshot of the modifier keys: one flag for each of shift, control, alt and logo.
#[derive(Clone, Copy, Debug, PartialEq, Eq, Hash, Structural)]
pub struct ModifiersState {
    pub shift: bool,
    pub ctrl: bool,
    pub alt: bool,
    pub logo: bool,
}

impl ModifiersState {
    /// The snapshot in which no modifier key is held.
    pub open spec fn none() -> ModifiersState {
        ModifiersState { shift: false, ctrl: false, alt: false, logo: false }
    }

    /// Returns the snapshot in which no modifier key is held.
    pub fn empty() -> (modifiers: ModifiersState)
        ensures
            modifiers == ModifiersState::none(),
    {
        ModifiersState { shift: false, ctrl: false, alt: false, logo: false }
    }

    /// Is a shift key held?
    pub fn shift(&self) -> (held: bool)
        ensures
            held == self.shift,
    {
        self.shift
    }

    /// Is a control key held?
    pub fn ctrl(&self) -> (held: bool)
        ensures
            held == self.ctrl,
    {
        self.ctrl
    }

    /// Is an alt key held?
    pub fn alt(&self) -> (held: bool)
        ensures
            held == self.alt,
    {
        self.alt
    }

    /// Is a logo key held?
    pub fn logo(&self) -> (held: bool)
        ensures
            held == self.logo,
    {
        self.logo
    }
}

impl Default for ModifiersState {
    fn default() -> (modifiers: ModifiersState)
        ensures
            modifiers == ModifiersState::none(),
    {
        ModifiersState::empty()
    }
}

/// A button of a pointing device.
///
/// Buttons beyond the three named ones are told apart by a small number.
#[derive(Clone, Copy, Debug, PartialEq, Eq, Hash, Structural)]
pub enum MouseButton {
    Left,
    Right,
    Middle,
    Other(u8),
}

/// One press or release of a key, as the windowing layer reports it.
#[derive(Clone, Copy, Debug, PartialEq, Eq, Hash, Structural)]
pub struct KeyboardInput {
    /// Hardware code of the physical key.
    pub scancode: u32,
    /// Whether the key went down or up.
    pub state: ElementState,
    /// The key's symbolic name, where the windowing layer could resolve one.
    pub virtual_keycode: Option<VirtualKeyCode>,
    /// Modifiers that the event itself reports. The accumulator does not read them: it
    /// attributes to every event the modifiers it was last told of.
    pub modifiers: ModifiersState,
}

/// An event addressed to a window, reduced to what an accumulator of keys and buttons reads.
#[derive(Clone, Copy, Debug, PartialEq, Eq, Hash, Structural)]
pub enum WindowEvent {
    /// A key was pressed or released.
    KeyboardInput { input: KeyboardInput },
    /// A mouse button was pressed or released.
    MouseInput { state: ElementState, button: MouseButton },
    /// The set of held modifier keys changed.
    ModifiersChanged(ModifiersState),
    /// Any other window event.
    Other,
}

/// An event of the windowing layer.
#[derive(Clone, Copy, Debug, PartialEq, Eq, Hash, Structural)]
pub enum Event {
    /// An event addressed to a window.
    WindowEvent { event: WindowEvent },
    /// Any other event.
    Other,
}

} // verus!
