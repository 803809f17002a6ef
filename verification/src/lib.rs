//! Per-frame accumulator of key and mouse button events.
//!
//! A windowing layer reports input as events, any number of them per key within one frame; an
//! application loop asks once per frame what is held down and what changed. [`Input`] stands
//! between the two. It keeps two generations of a key table and of a button table and is asked
//! through queries that never change it; [`Input::prepare_for_next_frame`] is the one point at
//! which a frame ends.
//!
//! [`InputState`] is the accumulator as mathematics. Every operation of [`Input`] is stated as a
//! function on it, every query as a predicate on it, and the module [`laws`] proves what holds
//! of them together.
pub mod event;
pub mod input;
pub mod keys;
pub mod laws;
pub mod model;
pub mod table;

pub use crate::event::{ElementState, Event, KeyboardInput, ModifiersState, MouseButton, WindowEvent};
pub use crate::input::Input;
pub use crate::keys::{VirtualKeyCode, NUM_KEYS};
pub use crate::model::InputState;
pub use crate::table::{mouse_button_to_index, KeyInput, MouseInput, MousePosition, NUM_MOUSE_BUTTONS};
