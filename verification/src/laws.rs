use vstd::prelude::*;
use crate::event::{ElementState, KeyboardInput, ModifiersState, MouseButton};
use crate::keys::VirtualKeyCode;
use crate::model::InputState;
use crate::table::{KeyInput, MouseInput};

verus! {

/// A fresh accumulator has both generations of both tables total, and every operation keeps
/// them so: the two generations always have the same shape.
pub proof fn lemma_tables_stay_total(
    state: InputState,
    input: KeyboardInput,
    button_state: ElementState,
    button: MouseButton,
    modifiers: ModifiersState,
)
    requires
        state.wf(),
    ensures
        InputState::initial().wf(),
        state.register_key(input).wf(),
        state.register_mouse_input(button_state, button).wf(),
        state.set_modifiers(modifiers).wf(),
        state.hide_key_state().wf(),
        state.hide_mouse_state().wf(),
        state.prepare_for_next_frame().wf(),
{
    let keys = state.register_key(input);
    assert(keys.keys_now.dom() =~= Set::<VirtualKeyCode>::full());
    assert(keys.keys_before.dom() =~= Set::<VirtualKeyCode>::full());
    let buttons = state.register_mouse_input(button_state, button);
    assert(buttons.mouse_buttons_now.dom() =~= Set::<MouseButton>::full());
    assert(buttons.mouse_buttons_before.dom() =~= Set::<MouseButton>::full());
}

/// A key event touches the two entries of the key it names and nothing else: every other key,
/// every mouse button, both visibility flags and the current modifiers stay as they were. An
/// event that names no key changes nothing at all.
pub proof fn lemma_register_key_touches_one_key(
    state: InputState,
    input: KeyboardInput,
    other: VirtualKeyCode,
)
    ensures
        input.virtual_keycode is None ==> state.register_key(input) == state,
        input.virtual_keycode != Some(other) ==> {
            &&& state.register_key(input).keys_now[other] == state.keys_now[other]
            &&& state.register_key(input).keys_before[other] == state.keys_before[other]
        },
        state.register_key(input).mouse_buttons_now == state.mouse_buttons_now,
        state.register_key(input).mouse_buttons_before == state.mouse_buttons_before,
        state.register_key(input).hide_keys == state.hide_keys,
        state.register_key(input).hide_mouse == state.hide_mouse,
        state.register_key(input).current_modifiers == state.current_modifiers,
{
}

/// A mouse button event touches the two entries of its button and nothing else: every other
/// button, the highest numbered one and its neighbours too, every key, both visibility flags
/// and the current modifiers stay as they were.
pub proof fn lemma_register_mouse_input_touches_one_button(
    state: InputState,
    button_state: ElementState,
    button: MouseButton,
    other: MouseButton,
)
    ensures
        button != other ==> {
            &&& state.register_mouse_input(button_state, button).mouse_buttons_now[other]
                == state.mouse_buttons_now[other]
            &&& state.register_mouse_input(button_state, button).mouse_buttons_before[other]
                == state.mouse_buttons_before[other]
        },
        state.register_mouse_input(button_state, button).keys_now == state.keys_now,
        state.register_mouse_input(button_state, button).keys_before == state.keys_before,
        state.register_mouse_input(button_state, button).hide_keys == state.hide_keys,
        state.register_mouse_input(button_state, button).hide_mouse == state.hide_mouse,
        state.register_mouse_input(button_state, button).current_modifiers
            == state.current_modifiers,
{
}

/// However many events a key receives in a row, only the last two can be told afterwards: the
/// current entry holds the state of the last event, the previous entry the state of the event
/// before it, or what was current at the start where there was only one event.
pub proof fn lemma_register_keys_keeps_last_two(
    state: InputState,
    keycode: VirtualKeyCode,
    inputs: Seq<KeyboardInput>,
)
    requires
        inputs.len() >= 1,
        forall|i: int| 0 <= i < inputs.len() ==> inputs[i].virtual_keycode == Some(keycode),
    ensures
        state.register_keys(inputs).keys_now[keycode] == (KeyInput {
            state: inputs.last().state,
            modifiers: state.current_modifiers,
        }),
        state.register_keys(inputs).keys_before[keycode] == if inputs.len() >= 2 {
            KeyInput { state: inputs[inputs.len() - 2].state, modifiers: state.current_modifiers }
        } else {
            state.keys_now[keycode]
        },
        state.register_keys(inputs).hide_keys == state.hide_keys,
        state.register_keys(inputs).current_modifiers == state.current_modifiers,
    decreases inputs.len(),
{
    if inputs.len() >= 2 {
        lemma_register_keys_keeps_last_two(state, keycode, inputs.drop_last());
    } else {
        assert(inputs.drop_last().len() == 0);
        assert(state.register_keys(inputs.drop_last()) == state);
    }
}

/// However many events a mouse button receives in a row, only the last two can be told
/// afterwards: the current entry holds the state of the last event, the previous entry the
/// state of the event before it, or what was current at the start where there was only one
/// event.
pub proof fn lemma_register_mouse_inputs_keeps_last_two(
    state: InputState,
    button: MouseButton,
    inputs: Seq<(ElementState, MouseButton)>,
)
    requires
        inputs.len() >= 1,
        forall|i: int| 0 <= i < inputs.len() ==> inputs[i].1 == button,
    ensures
        state.register_mouse_inputs(inputs).mouse_buttons_now[button] == (MouseInput {
            state: inputs.last().0,
            modifiers: state.current_modifiers,
        }),
        state.register_mouse_inputs(inputs).mouse_buttons_before[button] == if inputs.len() >= 2 {
            MouseInput { state: inputs[inputs.len() - 2].0, modifiers: state.current_modifiers }
        } else {
            state.mouse_buttons_now[button]
        },
        state.register_mouse_inputs(inputs).hide_mouse == state.hide_mouse,
        state.register_mouse_inputs(inputs).current_modifiers == state.current_modifiers,
    decreases inputs.len(),
{
    if inputs.len() >= 2 {
        lemma_register_mouse_inputs_keeps_last_two(state, button, inputs.drop_last());
    } else {
        assert(inputs.drop_last().len() == 0);
        assert(state.register_mouse_inputs(inputs.drop_last()) == state);
    }
}

/// Three events on one key within a frame collapse to the transition between the last two:
/// while keys are visible, the key reads as toggled exactly if the last two states differ, and
/// as down exactly if the last state is pressed. So pressed, released, pressed reads as
/// toggled down, and released, pressed, released as toggled up.
pub proof fn lemma_tri_state_collapse(
    state: InputState,
    keycode: VirtualKeyCode,
    first: KeyboardInput,
    second: KeyboardInput,
    third: KeyboardInput,
)
    requires
        !state.hide_keys,
        first.virtual_keycode == Some(keycode),
        second.virtual_keycode == Some(keycode),
        third.virtual_keycode == Some(keycode),
    ensures
        ({
            let after = state.register_key(first).register_key(second).register_key(third);
            &&& after.is_key_down(keycode) == (third.state == ElementState::Pressed)
            &&& after.is_key_up(keycode) == (third.state == ElementState::Released)
            &&& after.is_key_toggled(keycode) == (second.state != third.state)
            &&& after.is_key_toggled_down(keycode) == (second.state == ElementState::Released
                && third.state == ElementState::Pressed)
            &&& after.is_key_toggled_up(keycode) == (second.state == ElementState::Pressed
                && third.state == ElementState::Released)
        }),
{
}

/// Three events on one mouse button within a frame collapse to the transition between the
/// last two: while mouse buttons are visible, the button reads as toggled exactly if the last
/// two states differ, and as down exactly if the last state is pressed.
pub proof fn lemma_tri_state_collapse_mouse(
    state: InputState,
    button: MouseButton,
    first: ElementState,
    second: ElementState,
    third: ElementState,
)
    requires
        !state.hide_mouse,
    ensures
        ({
            let after = state.register_mouse_input(first, button).register_mouse_input(
                second,
                button,
            ).register_mouse_input(third, button);
            &&& after.is_mouse_button_down(button) == (third == ElementState::Pressed)
            &&& after.is_mouse_button_up(button) == (third == ElementState::Released)
            &&& after.is_mouse_button_toggled(button) == (second != third)
            &&& after.is_mouse_button_toggled_down(button) == (second == ElementState::Released
                && third == ElementState::Pressed)
            &&& after.is_mouse_button_toggled_up(button) == (second == ElementState::Pressed
                && third == ElementState::Released)
        }),
{
}

/// Whatever was registered before, once the frame ends no key and no mouse button reads as
/// toggled until it is touched again, and none has lost its current state.
pub proof fn lemma_toggle_reset(state: InputState, keycode: VirtualKeyCode, button: MouseButton)
    ensures
        !state.prepare_for_next_frame().is_key_toggled(keycode),
        !state.prepare_for_next_frame().is_key_toggled_down(keycode),
        !state.prepare_for_next_frame().is_key_toggled_up(keycode),
        !state.prepare_for_next_frame().is_mouse_button_toggled(button),
        !state.prepare_for_next_frame().is_mouse_button_toggled_down(button),
        !state.prepare_for_next_frame().is_mouse_button_toggled_up(button),
        state.prepare_for_next_frame().keys_now == state.keys_now,
        state.prepare_for_next_frame().mouse_buttons_now == state.mouse_buttons_now,
        state.prepare_for_next_frame().current_modifiers == state.current_modifiers,
{
}

/// A key that receives no event in a frame does not read as toggled in it, however many
/// events the other keys receive.
pub proof fn lemma_untouched_key_is_not_toggled(
    state: InputState,
    keycode: VirtualKeyCode,
    inputs: Seq<KeyboardInput>,
)
    requires
        forall|i: int| 0 <= i < inputs.len() ==> inputs[i].virtual_keycode != Some(keycode),
    ensures
        state.prepare_for_next_frame().register_keys(inputs).keys_now[keycode]
            == state.keys_now[keycode],
        state.prepare_for_next_frame().register_keys(inputs).keys_before[keycode]
            == state.keys_now[keycode],
        !state.prepare_for_next_frame().register_keys(inputs).is_key_toggled(keycode),
    decreases inputs.len(),
{
    if inputs.len() > 0 {
        lemma_untouched_key_is_not_toggled(state, keycode, inputs.drop_last());
    }
}

/// A mouse button that receives no event in a frame does not read as toggled in it, however
/// many events the other buttons receive.
pub proof fn lemma_untouched_button_is_not_toggled(
    state: InputState,
    button: MouseButton,
    inputs: Seq<(ElementState, MouseButton)>,
)
    requires
        forall|i: int| 0 <= i < inputs.len() ==> inputs[i].1 != button,
    ensures
        state.prepare_for_next_frame().register_mouse_inputs(inputs).mouse_buttons_now[button]
            == state.mouse_buttons_now[button],
        state.prepare_for_next_frame().register_mouse_inputs(inputs).mouse_buttons_before[button]
            == state.mouse_buttons_now[button],
        !state.prepare_for_next_frame().register_mouse_inputs(inputs).is_mouse_button_toggled(
            button,
        ),
    decreases inputs.len(),
{
    if inputs.len() > 0 {
        lemma_untouched_button_is_not_toggled(state, button, inputs.drop_last());
    }
}

/// A key's modifiers are those that were current when its last event was registered, not a
/// union of all that were seen: of two events under two modifier states, the later state
/// alone is reported.
pub proof fn lemma_modifier_capture(
    state: InputState,
    keycode: VirtualKeyCode,
    earlier: ModifiersState,
    first: KeyboardInput,
    later: ModifiersState,
    second: KeyboardInput,
)
    requires
        first.virtual_keycode == Some(keycode),
        second.virtual_keycode == Some(keycode),
    ensures
        state.set_modifiers(earlier).register_key(first).key_modifiers_state(keycode) == earlier,
        state.set_modifiers(earlier).register_key(first).set_modifiers(later).key_modifiers_state(
            keycode,
        ) == earlier,
        state.set_modifiers(earlier).register_key(first).set_modifiers(later).register_key(
            second,
        ).key_modifiers_state(keycode) == later,
{
}

/// A mouse button's modifiers are those that were current when its last event was registered:
/// of two events under two modifier states, the later state alone is reported.
pub proof fn lemma_modifier_capture_mouse(
    state: InputState,
    button: MouseButton,
    earlier: ModifiersState,
    first: ElementState,
    later: ModifiersState,
    second: ElementState,
)
    ensures
        state.set_modifiers(earlier).register_mouse_input(
            first,
            button,
        ).mouse_button_modifiers_state(button) == earlier,
        state.set_modifiers(earlier).register_mouse_input(first, button).set_modifiers(
            later,
        ).mouse_button_modifiers_state(button) == earlier,
        state.set_modifiers(earlier).register_mouse_input(first, button).set_modifiers(
            later,
        ).register_mouse_input(second, button).mouse_button_modifiers_state(button) == later,
{
}

/// Hiding the keys makes every key read as up and untoggled whatever is stored, and stores
/// nothing: the tables and the modifiers are as before, and the end of the frame brings back
/// the readings of what is stored.
pub proof fn lemma_masking(state: InputState, input: KeyboardInput, keycode: VirtualKeyCode)
    requires
        input.virtual_keycode == Some(keycode),
    ensures
        ({
            let hidden = state.register_key(input).hide_key_state();
            let next = hidden.prepare_for_next_frame();
            &&& !hidden.is_key_down(keycode)
            &&& hidden.is_key_up(keycode)
            &&& !hidden.is_key_toggled(keycode)
            &&& !hidden.is_key_toggled_down(keycode)
            &&& !hidden.is_key_toggled_up(keycode)
            &&& hidden.keys_now[keycode].state == input.state
            &&& hidden.key_modifiers_state(keycode) == state.current_modifiers
            &&& hidden.keys_now == state.register_key(input).keys_now
            &&& hidden.keys_before == state.register_key(input).keys_before
            &&& !next.hide_keys
            &&& next.is_key_down(keycode) == (input.state == ElementState::Pressed)
            &&& next.is_key_up(keycode) == (input.state == ElementState::Released)
        }),
{
}

/// Hiding the mouse makes every button read as up and untoggled whatever is stored, and
/// stores nothing: the tables and the modifiers are as before, and the end of the frame
/// brings back the readings of what is stored.
pub proof fn lemma_masking_mouse(state: InputState, button_state: ElementState, button: MouseButton)
    ensures
        ({
            let hidden = state.register_mouse_input(button_state, button).hide_mouse_state();
            let next = hidden.prepare_for_next_frame();
            &&& !hidden.is_mouse_button_down(button)
            &&& hidden.is_mouse_button_up(button)
            &&& !hidden.is_mouse_button_toggled(button)
            &&& !hidden.is_mouse_button_toggled_down(button)
            &&& !hidden.is_mouse_button_toggled_up(button)
            &&& hidden.mouse_buttons_now[button].state == button_state
            &&& hidden.mouse_button_modifiers_state(button) == state.current_modifiers
            &&& hidden.mouse_buttons_now == state.register_mouse_input(
                button_state,
                button,
            ).mouse_buttons_now
            &&& hidden.mouse_buttons_before == state.register_mouse_input(
                button_state,
                button,
            ).mouse_buttons_before
            &&& !next.hide_mouse
            &&& next.is_mouse_button_down(button) == (button_state == ElementState::Pressed)
            &&& next.is_mouse_button_up(button) == (button_state == ElementState::Released)
        }),
{
}

/// The two visibility flags are independent: hiding the keys hides no mouse button, and
/// hiding the mouse hides no key.
pub proof fn lemma_masks_are_independent(
    state: InputState,
    keycode: VirtualKeyCode,
    button: MouseButton,
)
    ensures
        state.hide_key_state().is_mouse_button_down(button) == state.is_mouse_button_down(button),
        state.hide_key_state().is_mouse_button_up(button) == state.is_mouse_button_up(button),
        state.hide_key_state().is_mouse_button_toggled(button) == state.is_mouse_button_toggled(
            button,
        ),
        state.hide_mouse_state().is_key_down(keycode) == state.is_key_down(keycode),
        state.hide_mouse_state().is_key_up(keycode) == state.is_key_up(keycode),
        state.hide_mouse_state().is_key_toggled(keycode) == state.is_key_toggled(keycode),
{
}

/// A key is down or up and never both; a hidden key is up. The same holds of a mouse button.
pub proof fn lemma_down_is_not_up(state: InputState, keycode: VirtualKeyCode, button: MouseButton)
    ensures
        state.is_key_down(keycode) != state.is_key_up(keycode),
        state.hide_keys ==> state.is_key_up(keycode),
        state.is_key_toggled(keycode) == (state.is_key_toggled_down(keycode)
            || state.is_key_toggled_up(keycode)),
        state.is_mouse_button_down(button) != state.is_mouse_button_up(button),
        state.hide_mouse ==> state.is_mouse_button_up(button),
        state.is_mouse_button_toggled(button) == (state.is_mouse_button_toggled_down(button)
            || state.is_mouse_button_toggled_up(button)),
{
}

} // verus!
