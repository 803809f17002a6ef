use vstd::prelude::*;
use crate::event::{ElementState, Event, KeyboardInput, ModifiersState, MouseButton, WindowEvent};
use crate::keys::VirtualKeyCode;
use crate::model::InputState;
use crate::table::{KeyInput, Keys, MouseButtons, MouseInput};

verus! {

/// Two-generation window over key and mouse button events.
///
/// Events arrive at any rate; the application looks once per frame. The accumulator keeps, for
/// every key and every mouse button, the entry that the last event left and the entry before
/// it, so that a press and a release within one frame still read as a toggle. Its memory does
/// not grow with the number of events.
#[derive(Clone, Debug)]
pub struct Input {
    keys_now: Keys,
    keys_before: Keys,
    mouse_buttons_now: MouseButtons,
    mouse_buttons_before: MouseButtons,
    hide_mouse: bool,
    hide_keys: bool,
    current_modifiers: ModifiersState,
}

impl View for Input {
    type V = InputState;

    closed spec fn view(&self) -> InputState {
        InputState {
            keys_now: self.keys_now@,
            keys_before: self.keys_before@,
            mouse_buttons_now: self.mouse_buttons_now@,
            mouse_buttons_before: self.mouse_buttons_before@,
            hide_mouse: self.hide_mouse,
            hide_keys: self.hide_keys,
            current_modifiers: self.current_modifiers,
        }
    }
}

impl Default for Input {
    /// A fresh accumulator: nothing pressed, no modifiers, nothing hidden.
    fn default() -> (input: Input)
        ensures
            input@ == InputState::initial(),
    {
        Input {
            keys_now: Keys::default(),
            keys_before: Keys::default(),
            mouse_buttons_now: MouseButtons::default(),
            mouse_buttons_before: MouseButtons::default(),
            hide_mouse: false,
            hide_keys: false,
            current_modifiers: ModifiersState::empty(),
        }
    }
}

impl Input {
    /// Both generations of both tables of an accumulator are total, whatever happened to it.
    pub proof fn lemma_view_wf(&self)
        ensures
            self@.wf(),
    {
        self.keys_now.lemma_total();
        self.keys_before.lemma_total();
        self.mouse_buttons_now.lemma_total();
        self.mouse_buttons_before.lemma_total();
    }

    /// Ends the frame: the current generation of both tables becomes the previous one, and
    /// both visibility flags are cleared.
    pub fn prepare_for_next_frame(&mut self)
        ensures
            final(self)@ == old(self)@.prepare_for_next_frame(),
    {
        self.keys_before = self.keys_now;
        self.mouse_buttons_before = self.mouse_buttons_now;
        self.hide_mouse = false;
        self.hide_keys = false;
    }

    /// Hide any key input for the rest of the current frame.
    pub fn hide_key_state(&mut self)
        ensures
            final(self)@ == old(self)@.hide_key_state(),
    {
        self.hide_keys = true;
    }

    /// Hide any mouse input for the rest of the current frame.
    pub fn hide_mouse_state(&mut self)
        ensures
            final(self)@ == old(self)@.hide_mouse_state(),
    {
        self.hide_mouse = true;
    }

    /// Register an arbitrary event. Events that carry no key, button or modifier change leave
    /// the accumulator as it was.
    pub fn register_event(&mut self, input: &Event)
        ensures
            final(self)@ == old(self)@.register_event(*input),
    {
        match input {
            Event::WindowEvent { event } => {
                self.handle_window_event(event);
            },
            _ => {},
        }
    }

    /// Set the current modifier state. Every registration from here on is attributed to it,
    /// until it is set again.
    pub fn set_modifiers(&mut self, modifiers: ModifiersState)
        ensures
            final(self)@ == old(self)@.set_modifiers(modifiers),
    {
        self.current_modifiers = modifiers;
    }

    fn handle_window_event(&mut self, event: &WindowEvent)
        ensures
            final(self)@ == old(self)@.handle_window_event(*event),
    {
        match event {
            WindowEvent::KeyboardInput { input } => {
                self.register_key(input);
            },
            WindowEvent::MouseInput { state, button } => {
                self.register_mouse_input(state, button);
            },
            WindowEvent::ModifiersChanged(modifiers) => {
                self.current_modifiers = *modifiers;
            },
            _ => {},
        }
    }

    /// Register a keyboard input. An input without a key code is dropped.
    pub fn register_key(&mut self, input: &KeyboardInput)
        ensures
            final(self)@ == old(self)@.register_key(*input),
    {
        if let Some(keycode) = input.virtual_keycode {
            let displaced = self.keys_now.get(keycode);
            self.keys_before.set(keycode, displaced);
            self.keys_now.set(
                keycode,
                KeyInput { state: input.state, modifiers: self.current_modifiers },
            );
        }
    }

    /// Check if a key is pressed.
    pub fn is_key_down(&self, keycode: VirtualKeyCode) -> (down: bool)
        ensures
            down == self@.is_key_down(keycode),
    {
        !self.hide_keys && self.keys_now.get(keycode).state == ElementState::Pressed
    }

    /// Check if a key is up (released).
    pub fn is_key_up(&self, keycode: VirtualKeyCode) -> (up: bool)
        ensures
            up == self@.is_key_up(keycode),
    {
        self.hide_keys || self.keys_now.get(keycode).state == ElementState::Released
    }

    /// Check if a key has been toggled.
    pub fn is_key_toggled(&self, keycode: VirtualKeyCode) -> (toggled: bool)
        ensures
            toggled == self@.is_key_toggled(keycode),
    {
        !self.hide_keys && self.keys_before.get(keycode).state != self.keys_now.get(keycode).state
    }

    /// Check if a key has been toggled and is pressed.
    pub fn is_key_toggled_down(&self, keycode: VirtualKeyCode) -> (toggled_down: bool)
        ensures
            toggled_down == self@.is_key_toggled_down(keycode),
    {
        self.is_key_down(keycode) && self.is_key_toggled(keycode)
    }

    /// Check if a key has been toggled and is released.
    pub fn is_key_toggled_up(&self, keycode: VirtualKeyCode) -> (toggled_up: bool)
        ensures
            toggled_up == self@.is_key_toggled_up(keycode),
    {
        !self.is_key_down(keycode) && self.is_key_toggled(keycode)
    }

    /// Get a key's modifiers state. Hiding the keys does not hide it.
    pub fn key_modifiers_state(&self, keycode: VirtualKeyCode) -> (modifiers: ModifiersState)
        ensures
            modifiers == self@.key_modifiers_state(keycode),
    {
        self.keys_now.get(keycode).modifiers
    }

    /// Register a mouse button event.
    pub fn register_mouse_input(&mut self, state: &ElementState, button: &MouseButton)
        ensures
            final(self)@ == old(self)@.register_mouse_input(*state, *button),
    {
        let displaced = self.mouse_buttons_now.get(*button);
        self.mouse_buttons_before.set(*button, displaced);
        self.mouse_buttons_now.set(
            *button,
            MouseInput { state: *state, modifiers: self.current_modifiers },
        );
    }

    /// Check if a mouse button is pressed.
    pub fn is_mouse_button_down(&self, button: MouseButton) -> (down: bool)
        ensures
            down == self@.is_mouse_button_down(button),
    {
        !self.hide_mouse && self.mouse_buttons_now.get(button).state == ElementState::Pressed
    }

    /// Check if a mouse button is released (up).
    pub fn is_mouse_button_up(&self, button: MouseButton) -> (up: bool)
        ensures
            up == self@.is_mouse_button_up(button),
    {
        self.hide_mouse || self.mouse_buttons_now.get(button).state == ElementState::Released
    }

    /// Check if a mouse button is toggled.
    pub fn is_mouse_button_toggled(&self, button: MouseButton) -> (toggled: bool)
        ensures
            toggled == self@.is_mouse_button_toggled(button),
    {
        !self.hide_mouse && self.mouse_buttons_before.get(button).state
            != self.mouse_buttons_now.get(button).state
    }

    /// Check if a mouse button is toggled and is pressed.
    pub fn is_mouse_button_toggled_down(&self, button: MouseButton) -> (toggled_down: bool)
        ensures
            toggled_down == self@.is_mouse_button_toggled_down(button),
    {
        self.is_mouse_button_toggled(button) && self.is_mouse_button_down(button)
    }

    /// Check if a mouse button is toggled and is released.
    pub fn is_mouse_button_toggled_up(&self, button: MouseButton) -> (toggled_up: bool)
        ensures
            toggled_up == self@.is_mouse_button_toggled_up(button),
    {
        self.is_mouse_button_toggled(button) && self.is_mouse_button_up(button)
    }

    /// Get a mouse button's modifiers state. Hiding the mouse does not hide it.
    pub fn mouse_button_modifiers_state(&self, button: MouseButton) -> (modifiers: ModifiersState)
        ensures
            modifiers == self@.mouse_button_modifiers_state(button),
    {
        self.mouse_buttons_now.get(button).modifiers
    }
}

} // verus!
