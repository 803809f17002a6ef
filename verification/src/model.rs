use vstd::prelude::*;
use crate::event::{ElementState, Event, KeyboardInput, ModifiersState, MouseButton, WindowEvent};
use crate::keys::VirtualKeyCode;
use crate::table::{KeyInput, MouseInput};

verus! {

/// What an accumulator holds, as mathematics: two generations of the key table and of the
/// button table, the two visibility flags, and the modifiers that the next registration will be
/// attributed to.
///
/// Every operation of the accumulator is a function on this state, and every query a predicate
/// on it.
#[verifier::ext_equal]
pub struct InputState {
    /// Entry of each key after the last event that touched it.
    pub keys_now: Map<VirtualKeyCode, KeyInput>,
    /// Entry of each key before the last event that touched it in this frame, or at the start
    /// of the frame where none did.
    pub keys_before: Map<VirtualKeyCode, KeyInput>,
    /// Entry of each mouse button after the last event that touched it.
    pub mouse_buttons_now: Map<MouseButton, MouseInput>,
    /// Entry of each mouse button before the last event that touched it in this frame, or at
    /// the start of the frame where none did.
    pub mouse_buttons_before: Map<MouseButton, MouseInput>,
    /// Mouse buttons read as released and untoggled until the frame ends.
    pub hide_mouse: bool,
    /// Keys read as released and untoggled until the frame ends.
    pub hide_keys: bool,
    /// Modifiers most recently reported.
    pub current_modifiers: ModifiersState,
}

impl InputState {
    /// The state of a fresh accumulator: nothing pressed, no modifiers, nothing hidden.
    pub open spec fn initial() -> InputState {
        InputState {
            keys_now: Map::total(|code: VirtualKeyCode| KeyInput::untouched()),
            keys_before: Map::total(|code: VirtualKeyCode| KeyInput::untouched()),
            mouse_buttons_now: Map::total(|button: MouseButton| MouseInput::untouched()),
            mouse_buttons_before: Map::total(|button: MouseButton| MouseInput::untouched()),
            hide_mouse: false,
            hide_keys: false,
            current_modifiers: ModifiersState::none(),
        }
    }

    /// Both generations of both tables have an entry for every key code and every mouse button.
    pub open spec fn wf(self) -> bool {
        &&& self.keys_now.dom() == Set::<VirtualKeyCode>::full()
        &&& self.keys_before.dom() == Set::<VirtualKeyCode>::full()
        &&& self.mouse_buttons_now.dom() == Set::<MouseButton>::full()
        &&& self.mouse_buttons_before.dom() == Set::<MouseButton>::full()
    }

    /// The frame boundary: what is current becomes the baseline of the next frame, and both
    /// visibility flags are cleared.
    pub open spec fn prepare_for_next_frame(self) -> InputState {
        InputState {
            keys_before: self.keys_now,
            mouse_buttons_before: self.mouse_buttons_now,
            hide_mouse: false,
            hide_keys: false,
            ..self
        }
    }

    /// Keys read as released and untoggled from here to the end of the frame.
    pub open spec fn hide_key_state(self) -> InputState {
        InputState { hide_keys: true, ..self }
    }

    /// Mouse buttons read as released and untoggled from here to the end of the frame.
    pub open spec fn hide_mouse_state(self) -> InputState {
        InputState { hide_mouse: true, ..self }
    }

    /// Later registrations are attributed to `modifiers`.
    pub open spec fn set_modifiers(self, modifiers: ModifiersState) -> InputState {
        InputState { current_modifiers: modifiers, ..self }
    }

    /// One key event. Where the event names a key, that key's current entry moves to the
    /// previous generation and the event's state, with the current modifiers, takes its place.
    /// An event that names no key changes nothing.
    pub open spec fn register_key(self, input: KeyboardInput) -> InputState {
        match input.virtual_keycode {
            Some(keycode) => InputState {
                keys_before: self.keys_before.insert(keycode, self.keys_now[keycode]),
                keys_now: self.keys_now.insert(
                    keycode,
                    KeyInput { state: input.state, modifiers: self.current_modifiers },
                ),
                ..self
            },
            None => self,
        }
    }

    /// One mouse button event: the button's current entry moves to the previous generation and
    /// `state`, with the current modifiers, takes its place.
    pub open spec fn register_mouse_input(self, state: ElementState, button: MouseButton) -> InputState {
        InputState {
            mouse_buttons_before: self.mouse_buttons_before.insert(button, self.mouse_buttons_now[button]),
            mouse_buttons_now: self.mouse_buttons_now.insert(
                button,
                MouseInput { state: state, modifiers: self.current_modifiers },
            ),
            ..self
        }
    }

    /// One window event: key events, button events and modifier changes are taken up, every
    /// other event is ignored.
    pub open spec fn handle_window_event(self, event: WindowEvent) -> InputState {
        match event {
            WindowEvent::KeyboardInput { input } => self.register_key(input),
            WindowEvent::MouseInput { state, button } => self.register_mouse_input(state, button),
            WindowEvent::ModifiersChanged(modifiers) => self.set_modifiers(modifiers),
            WindowEvent::Other => self,
        }
    }

    /// One event of the windowing layer: window events are taken up, every other event is
    /// ignored.
    pub open spec fn register_event(self, input: Event) -> InputState {
        match input {
            Event::WindowEvent { event } => self.handle_window_event(event),
            Event::Other => self,
        }
    }

    /// The state after a run of key events, taken up in order.
    pub open spec fn register_keys(self, inputs: Seq<KeyboardInput>) -> InputState
        decreases inputs.len(),
    {
        if inputs.len() == 0 {
            self
        } else {
            self.register_keys(inputs.drop_last()).register_key(inputs.last())
        }
    }

    /// The state after a run of mouse button events, taken up in order.
    pub open spec fn register_mouse_inputs(self, inputs: Seq<(ElementState, MouseButton)>) -> InputState
        decreases inputs.len(),
    {
        if inputs.len() == 0 {
            self
        } else {
            self.register_mouse_inputs(inputs.drop_last()).register_mouse_input(
                inputs.last().0,
                inputs.last().1,
            )
        }
    }

    /// The key is pressed, and keys are not hidden.
    pub open spec fn is_key_down(self, keycode: VirtualKeyCode) -> bool {
        !self.hide_keys && self.keys_now[keycode].state == ElementState::Pressed
    }

    /// The key is released, or keys are hidden.
    pub open spec fn is_key_up(self, keycode: VirtualKeyCode) -> bool {
        self.hide_keys || self.keys_now[keycode].state == ElementState::Released
    }

    /// The key's state differs between the two generations, and keys are not hidden.
    pub open spec fn is_key_toggled(self, keycode: VirtualKeyCode) -> bool {
        !self.hide_keys && self.keys_before[keycode].state != self.keys_now[keycode].state
    }

    /// The key was toggled and is now pressed.
    pub open spec fn is_key_toggled_down(self, keycode: VirtualKeyCode) -> bool {
        self.is_key_down(keycode) && self.is_key_toggled(keycode)
    }

    /// The key was toggled and is now released.
    pub open spec fn is_key_toggled_up(self, keycode: VirtualKeyCode) -> bool {
        !self.is_key_down(keycode) && self.is_key_toggled(keycode)
    }

    /// Modifiers stored with the key's current entry, whether or not keys are hidden.
    pub open spec fn key_modifiers_state(self, keycode: VirtualKeyCode) -> ModifiersState {
        self.keys_now[keycode].modifiers
    }

    /// The button is pressed, and mouse buttons are not hidden.
    pub open spec fn is_mouse_button_down(self, button: MouseButton) -> bool {
        !self.hide_mouse && self.mouse_buttons_now[button].state == ElementState::Pressed
    }

    /// The button is released, or mouse buttons are hidden.
    pub open spec fn is_mouse_button_up(self, button: MouseButton) -> bool {
        self.hide_mouse || self.mouse_buttons_now[button].state == ElementState::Released
    }

    /// The button's state differs between the two generations, and mouse buttons are not
    /// hidden.
    pub open spec fn is_mouse_button_toggled(self, button: MouseButton) -> bool {
        !self.hide_mouse && self.mouse_buttons_before[button].state
            != self.mouse_buttons_now[button].state
    }

    /// The button was toggled and is now pressed.
    pub open spec fn is_mouse_button_toggled_down(self, button: MouseButton) -> bool {
        self.is_mouse_button_down(button) && self.is_mouse_button_toggled(button)
    }

    /// The button was toggled and is now released.
    pub open spec fn is_mouse_button_toggled_up(self, button: MouseButton) -> bool {
        !self.is_mouse_button_down(button) && self.is_mouse_button_toggled(button)
    }

    /// Modifiers stored with the button's current entry, whether or not mouse buttons are
    /// hidden.
    pub open spec fn mouse_button_modifiers_state(self, button: MouseButton) -> ModifiersState {
        self.mouse_buttons_now[button].modifiers
    }
}

} // verus!
