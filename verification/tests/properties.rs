//! What holds of the accumulator in general, on chosen values; table slots; event dispatch.
use winput::{
    mouse_button_to_index, ElementState, Event, Input, KeyboardInput, ModifiersState, MouseButton,
    VirtualKeyCode, WindowEvent, NUM_KEYS, NUM_MOUSE_BUTTONS,
};

fn key(state: ElementState, code: VirtualKeyCode) -> KeyboardInput {
    KeyboardInput {
        scancode: 0,
        state,
        virtual_keycode: Some(code),
        modifiers: ModifiersState::empty(),
    }
}

fn unresolved(state: ElementState) -> KeyboardInput {
    KeyboardInput { scancode: 42, state, virtual_keycode: None, modifiers: ModifiersState::empty() }
}

#[test]
fn fresh_accumulator_has_nothing_pressed() {
    let input = Input::default();
    assert!(!input.is_key_down(VirtualKeyCode::Key1));
    assert!(input.is_key_up(VirtualKeyCode::Key1));
    assert!(!input.is_key_toggled(VirtualKeyCode::Key1));
    assert!(!input.is_key_down(VirtualKeyCode::Cut));
    assert!(input.is_key_up(VirtualKeyCode::Cut));
    assert_eq!(ModifiersState::empty(), input.key_modifiers_state(VirtualKeyCode::Cut));
    assert!(!input.is_mouse_button_down(MouseButton::Left));
    assert!(input.is_mouse_button_up(MouseButton::Other(255)));
    assert!(!input.is_mouse_button_toggled(MouseButton::Other(0)));
    assert_eq!(
        ModifiersState::empty(),
        input.mouse_button_modifiers_state(MouseButton::Other(255))
    );
}

#[test]
fn modifiers_start_empty() {
    let none = ModifiersState::empty();
    assert!(!none.shift());
    assert!(!none.ctrl());
    assert!(!none.alt());
    assert!(!none.logo());
    assert_eq!(none, ModifiersState::default());
}

#[test]
fn modifier_getters_read_their_own_flag() {
    let some = ModifiersState { shift: true, ctrl: false, alt: true, logo: false };
    assert!(some.shift());
    assert!(!some.ctrl());
    assert!(some.alt());
    assert!(!some.logo());
    let others = ModifiersState { shift: false, ctrl: true, alt: false, logo: true };
    assert!(!others.shift());
    assert!(others.ctrl());
    assert!(!others.alt());
    assert!(others.logo());
}

#[test]
fn table_sizes() {
    assert_eq!(163, NUM_KEYS);
    assert_eq!(259, NUM_MOUSE_BUTTONS);
}

#[test]
fn key_slots_follow_the_enumeration() {
    assert_eq!(0, VirtualKeyCode::Key1.index());
    assert_eq!(9, VirtualKeyCode::Key0.index());
    assert_eq!(10, VirtualKeyCode::A.index());
    assert_eq!(35, VirtualKeyCode::Z.index());
    assert_eq!(36, VirtualKeyCode::Escape.index());
    assert_eq!(37, VirtualKeyCode::F1.index());
    assert_eq!(60, VirtualKeyCode::F24.index());
    assert_eq!(160, VirtualKeyCode::Copy.index());
    assert_eq!(161, VirtualKeyCode::Paste.index());
    assert_eq!(162, VirtualKeyCode::Cut.index());
}

#[test]
fn button_slots() {
    assert_eq!(0, mouse_button_to_index(MouseButton::Left));
    assert_eq!(1, mouse_button_to_index(MouseButton::Right));
    assert_eq!(2, mouse_button_to_index(MouseButton::Middle));
    assert_eq!(3, mouse_button_to_index(MouseButton::Other(0)));
    assert_eq!(4, mouse_button_to_index(MouseButton::Other(1)));
    assert_eq!(103, mouse_button_to_index(MouseButton::Other(100)));
    assert_eq!(258, mouse_button_to_index(MouseButton::Other(255)));
}

#[test]
fn every_button_has_a_slot_of_its_own() {
    let mut seen = vec![false; NUM_MOUSE_BUTTONS];
    let mut buttons = vec![MouseButton::Left, MouseButton::Right, MouseButton::Middle];
    for n in 0..=255u8 {
        buttons.push(MouseButton::Other(n));
    }
    for button in buttons {
        let slot = mouse_button_to_index(button);
        assert!(slot < NUM_MOUSE_BUTTONS);
        assert!(!seen[slot]);
        seen[slot] = true;
    }
    assert!(seen.iter().all(|taken| *taken));
}

#[test]
fn key_toggled_is_reset_on_next_frame() {
    let mut input = Input::default();
    input.register_key(&key(ElementState::Pressed, VirtualKeyCode::Space));
    assert!(input.is_key_toggled(VirtualKeyCode::Space));
    input.prepare_for_next_frame();
    assert!(!input.is_key_toggled(VirtualKeyCode::Space));
    assert!(!input.is_key_toggled_down(VirtualKeyCode::Space));
    assert!(!input.is_key_toggled_up(VirtualKeyCode::Space));
    assert!(input.is_key_down(VirtualKeyCode::Space));
    input.prepare_for_next_frame();
    assert!(!input.is_key_toggled(VirtualKeyCode::Space));
    assert!(input.is_key_down(VirtualKeyCode::Space));
}

#[test]
fn release_in_a_later_frame_reads_as_toggled_up() {
    let mut input = Input::default();
    input.register_key(&key(ElementState::Pressed, VirtualKeyCode::W));
    input.prepare_for_next_frame();
    input.register_key(&key(ElementState::Released, VirtualKeyCode::W));
    assert!(input.is_key_toggled(VirtualKeyCode::W));
    assert!(input.is_key_toggled_up(VirtualKeyCode::W));
    assert!(!input.is_key_toggled_down(VirtualKeyCode::W));
    assert!(input.is_key_up(VirtualKeyCode::W));
    assert!(!input.is_key_down(VirtualKeyCode::W));
}

#[test]
fn same_state_twice_is_no_toggle() {
    let mut input = Input::default();
    input.register_key(&key(ElementState::Pressed, VirtualKeyCode::Q));
    input.register_key(&key(ElementState::Pressed, VirtualKeyCode::Q));
    assert!(input.is_key_down(VirtualKeyCode::Q));
    assert!(!input.is_key_toggled(VirtualKeyCode::Q));
    assert!(!input.is_key_toggled_down(VirtualKeyCode::Q));

    input.register_mouse_input(&ElementState::Pressed, &MouseButton::Middle);
    input.register_mouse_input(&ElementState::Pressed, &MouseButton::Middle);
    assert!(input.is_mouse_button_down(MouseButton::Middle));
    assert!(!input.is_mouse_button_toggled(MouseButton::Middle));
}

#[test]
fn tap_within_one_frame_reads_as_toggled_up() {
    let mut input = Input::default();
    input.register_key(&key(ElementState::Pressed, VirtualKeyCode::Return));
    input.register_key(&key(ElementState::Released, VirtualKeyCode::Return));
    assert!(input.is_key_toggled(VirtualKeyCode::Return));
    assert!(input.is_key_toggled_up(VirtualKeyCode::Return));
    assert!(!input.is_key_down(VirtualKeyCode::Return));
}

#[test]
fn mouse_tri_state_released_pressed_released() {
    let mut input = Input::default();
    input.register_mouse_input(&ElementState::Released, &MouseButton::Right);
    input.register_mouse_input(&ElementState::Pressed, &MouseButton::Right);
    input.register_mouse_input(&ElementState::Released, &MouseButton::Right);
    assert!(input.is_mouse_button_toggled(MouseButton::Right));
    assert!(input.is_mouse_button_toggled_up(MouseButton::Right));
    assert!(!input.is_mouse_button_toggled_down(MouseButton::Right));
    assert!(input.is_mouse_button_up(MouseButton::Right));
    assert!(!input.is_mouse_button_down(MouseButton::Right));
}

#[test]
fn untouched_key_is_not_toggled() {
    let mut input = Input::default();
    input.register_key(&key(ElementState::Pressed, VirtualKeyCode::Up));
    input.prepare_for_next_frame();
    input.register_key(&key(ElementState::Pressed, VirtualKeyCode::Down));
    input.register_key(&key(ElementState::Released, VirtualKeyCode::Left));
    input.register_key(&key(ElementState::Pressed, VirtualKeyCode::Left));
    assert!(!input.is_key_toggled(VirtualKeyCode::Up));
    assert!(input.is_key_down(VirtualKeyCode::Up));
    assert!(!input.is_key_toggled(VirtualKeyCode::Right));
    assert!(input.is_key_up(VirtualKeyCode::Right));
    assert!(input.is_key_toggled_down(VirtualKeyCode::Down));
    assert!(input.is_key_toggled_down(VirtualKeyCode::Left));
}

#[test]
fn a_key_event_leaves_its_neighbours_alone() {
    let mut input = Input::default();
    input.register_key(&key(ElementState::Pressed, VirtualKeyCode::B));
    assert!(input.is_key_down(VirtualKeyCode::B));
    assert!(!input.is_key_down(VirtualKeyCode::A));
    assert!(!input.is_key_down(VirtualKeyCode::C));
    assert!(!input.is_key_toggled(VirtualKeyCode::A));
    assert!(!input.is_key_toggled(VirtualKeyCode::C));

    input.register_key(&key(ElementState::Pressed, VirtualKeyCode::Cut));
    assert!(input.is_key_down(VirtualKeyCode::Cut));
    assert!(!input.is_key_down(VirtualKeyCode::Paste));
    assert!(!input.is_key_down(VirtualKeyCode::Key1));
    assert!(!input.is_mouse_button_down(MouseButton::Left));
    assert!(!input.is_mouse_button_down(MouseButton::Other(255)));
}

#[test]
fn the_highest_button_leaves_its_neighbours_alone() {
    let mut input = Input::default();
    input.register_mouse_input(&ElementState::Pressed, &MouseButton::Other(255));
    assert!(input.is_mouse_button_down(MouseButton::Other(255)));
    assert!(input.is_mouse_button_toggled_down(MouseButton::Other(255)));
    assert!(!input.is_mouse_button_down(MouseButton::Other(254)));
    assert!(!input.is_mouse_button_toggled(MouseButton::Other(254)));
    assert!(!input.is_mouse_button_down(MouseButton::Other(0)));
    assert!(!input.is_mouse_button_down(MouseButton::Left));
    assert!(!input.is_mouse_button_down(MouseButton::Right));
    assert!(!input.is_mouse_button_down(MouseButton::Middle));
    assert!(!input.is_key_down(VirtualKeyCode::Cut));
    assert!(!input.is_key_down(VirtualKeyCode::Key1));
}

#[test]
fn the_lowest_numbered_button_is_not_the_middle_one() {
    let mut input = Input::default();
    input.register_mouse_input(&ElementState::Pressed, &MouseButton::Other(0));
    assert!(input.is_mouse_button_down(MouseButton::Other(0)));
    assert!(!input.is_mouse_button_down(MouseButton::Middle));
    assert!(!input.is_mouse_button_down(MouseButton::Other(1)));
}

#[test]
fn a_key_event_without_a_key_code_changes_nothing() {
    let mut input = Input::default();
    input.register_key(&key(ElementState::Pressed, VirtualKeyCode::Key1));
    input.set_modifiers(ModifiersState { ctrl: true, ..ModifiersState::empty() });
    input.register_key(&unresolved(ElementState::Pressed));
    input.register_key(&unresolved(ElementState::Released));
    assert!(input.is_key_toggled_down(VirtualKeyCode::Key1));
    assert_eq!(ModifiersState::empty(), input.key_modifiers_state(VirtualKeyCode::Key1));
    assert!(!input.is_key_down(VirtualKeyCode::Key2));
    assert!(!input.is_key_down(VirtualKeyCode::Cut));
    assert!(!input.is_key_toggled(VirtualKeyCode::Cut));
    assert!(!input.is_mouse_button_down(MouseButton::Left));
}

#[test]
fn modifiers_of_the_last_event_only() {
    let mut input = Input::default();
    let ctrl = ModifiersState { ctrl: true, ..ModifiersState::empty() };
    let shift = ModifiersState { shift: true, ..ModifiersState::empty() };
    input.set_modifiers(ctrl);
    input.register_key(&key(ElementState::Released, VirtualKeyCode::S));
    assert_eq!(ctrl, input.key_modifiers_state(VirtualKeyCode::S));
    input.set_modifiers(shift);
    assert_eq!(ctrl, input.key_modifiers_state(VirtualKeyCode::S));
    input.register_key(&key(ElementState::Pressed, VirtualKeyCode::S));
    assert_eq!(shift, input.key_modifiers_state(VirtualKeyCode::S));
    assert!(input.key_modifiers_state(VirtualKeyCode::S).shift());
    assert!(!input.key_modifiers_state(VirtualKeyCode::S).ctrl());
    assert_eq!(ModifiersState::empty(), input.key_modifiers_state(VirtualKeyCode::D));
}

#[test]
fn modifiers_outlast_the_frame() {
    let mut input = Input::default();
    let alt = ModifiersState { alt: true, ..ModifiersState::empty() };
    input.set_modifiers(alt);
    input.prepare_for_next_frame();
    input.register_mouse_input(&ElementState::Pressed, &MouseButton::Right);
    input.register_key(&key(ElementState::Pressed, VirtualKeyCode::Tab));
    assert_eq!(alt, input.mouse_button_modifiers_state(MouseButton::Right));
    assert_eq!(alt, input.key_modifiers_state(VirtualKeyCode::Tab));
}

#[test]
fn the_modifiers_an_event_carries_are_not_read() {
    let mut input = Input::default();
    input.register_key(&KeyboardInput {
        scancode: 0,
        state: ElementState::Pressed,
        virtual_keycode: Some(VirtualKeyCode::M),
        modifiers: ModifiersState { shift: true, ctrl: true, alt: true, logo: true },
    });
    assert_eq!(ModifiersState::empty(), input.key_modifiers_state(VirtualKeyCode::M));
}

#[test]
fn hidden_keys_keep_what_is_stored() {
    let mut input = Input::default();
    let logo = ModifiersState { logo: true, ..ModifiersState::empty() };
    input.set_modifiers(logo);
    input.register_key(&key(ElementState::Pressed, VirtualKeyCode::F));
    input.hide_key_state();
    assert!(!input.is_key_down(VirtualKeyCode::F));
    assert!(input.is_key_up(VirtualKeyCode::F));
    assert!(!input.is_key_toggled(VirtualKeyCode::F));
    assert_eq!(logo, input.key_modifiers_state(VirtualKeyCode::F));

    input.prepare_for_next_frame();
    assert!(input.is_key_down(VirtualKeyCode::F));
    assert!(!input.is_key_up(VirtualKeyCode::F));
    assert!(!input.is_key_toggled(VirtualKeyCode::F));
    assert_eq!(logo, input.key_modifiers_state(VirtualKeyCode::F));
}

#[test]
fn hidden_mouse_keeps_what_is_stored() {
    let mut input = Input::default();
    let shift = ModifiersState { shift: true, ..ModifiersState::empty() };
    input.set_modifiers(shift);
    input.register_mouse_input(&ElementState::Pressed, &MouseButton::Left);
    input.hide_mouse_state();
    assert!(!input.is_mouse_button_down(MouseButton::Left));
    assert!(input.is_mouse_button_up(MouseButton::Left));
    assert!(!input.is_mouse_button_toggled(MouseButton::Left));
    assert!(!input.is_mouse_button_toggled_down(MouseButton::Left));
    assert!(!input.is_mouse_button_toggled_up(MouseButton::Left));
    assert_eq!(shift, input.mouse_button_modifiers_state(MouseButton::Left));

    input.prepare_for_next_frame();
    assert!(input.is_mouse_button_down(MouseButton::Left));
    assert!(!input.is_mouse_button_up(MouseButton::Left));
    assert!(!input.is_mouse_button_toggled(MouseButton::Left));
}

#[test]
fn events_registered_while_hidden_show_in_the_same_frame_as_nothing() {
    let mut input = Input::default();
    input.hide_key_state();
    input.register_key(&key(ElementState::Pressed, VirtualKeyCode::X));
    assert!(!input.is_key_down(VirtualKeyCode::X));
    assert!(input.is_key_up(VirtualKeyCode::X));
    assert!(!input.is_key_toggled_down(VirtualKeyCode::X));
    input.prepare_for_next_frame();
    assert!(input.is_key_down(VirtualKeyCode::X));
    assert!(!input.is_key_toggled(VirtualKeyCode::X));
}

#[test]
fn the_two_masks_are_independent() {
    let mut input = Input::default();
    input.register_key(&key(ElementState::Pressed, VirtualKeyCode::K));
    input.register_mouse_input(&ElementState::Pressed, &MouseButton::Left);

    input.hide_key_state();
    assert!(!input.is_key_down(VirtualKeyCode::K));
    assert!(input.is_mouse_button_down(MouseButton::Left));
    assert!(input.is_mouse_button_toggled_down(MouseButton::Left));

    input.prepare_for_next_frame();
    input.register_key(&key(ElementState::Released, VirtualKeyCode::K));
    input.hide_mouse_state();
    assert!(input.is_key_toggled_up(VirtualKeyCode::K));
    assert!(!input.is_mouse_button_down(MouseButton::Left));
    assert!(input.is_mouse_button_up(MouseButton::Left));
}

#[test]
fn window_events_are_taken_up() {
    let mut input = Input::default();
    let ctrl = ModifiersState { ctrl: true, ..ModifiersState::empty() };
    input.register_event(&Event::WindowEvent { event: WindowEvent::ModifiersChanged(ctrl) });
    input.register_event(&Event::WindowEvent {
        event: WindowEvent::KeyboardInput { input: key(ElementState::Pressed, VirtualKeyCode::C) },
    });
    input.register_event(&Event::WindowEvent {
        event: WindowEvent::MouseInput {
            state: ElementState::Pressed,
            button: MouseButton::Other(7),
        },
    });
    assert!(input.is_key_toggled_down(VirtualKeyCode::C));
    assert_eq!(ctrl, input.key_modifiers_state(VirtualKeyCode::C));
    assert!(input.is_mouse_button_toggled_down(MouseButton::Other(7)));
    assert_eq!(ctrl, input.mouse_button_modifiers_state(MouseButton::Other(7)));
    assert!(!input.is_mouse_button_down(MouseButton::Other(6)));
}

#[test]
fn other_events_are_ignored() {
    let mut input = Input::default();
    input.register_key(&key(ElementState::Pressed, VirtualKeyCode::J));
    input.register_mouse_input(&ElementState::Pressed, &MouseButton::Right);
    input.hide_mouse_state();

    input.register_event(&Event::Other);
    input.register_event(&Event::WindowEvent { event: WindowEvent::Other });

    assert!(input.is_key_toggled_down(VirtualKeyCode::J));
    assert!(!input.is_key_down(VirtualKeyCode::I));
    assert!(!input.is_mouse_button_down(MouseButton::Right));
    assert!(input.is_mouse_button_up(MouseButton::Right));
    assert_eq!(ModifiersState::empty(), input.key_modifiers_state(VirtualKeyCode::J));
}

#[test]
fn a_key_event_through_a_window_event_without_a_key_code_is_dropped() {
    let mut input = Input::default();
    input.register_event(&Event::WindowEvent {
        event: WindowEvent::KeyboardInput { input: unresolved(ElementState::Pressed) },
    });
    assert!(!input.is_key_down(VirtualKeyCode::Key1));
    assert!(!input.is_key_toggled(VirtualKeyCode::Key1));
    assert!(!input.is_key_down(VirtualKeyCode::Cut));
}

#[test]
fn down_and_up_are_opposites() {
    let mut input = Input::default();
    assert!(input.is_key_down(VirtualKeyCode::A) != input.is_key_up(VirtualKeyCode::A));
    input.register_key(&key(ElementState::Pressed, VirtualKeyCode::A));
    assert!(input.is_key_down(VirtualKeyCode::A) != input.is_key_up(VirtualKeyCode::A));
    input.hide_key_state();
    assert!(input.is_key_down(VirtualKeyCode::A) != input.is_key_up(VirtualKeyCode::A));
    input.register_mouse_input(&ElementState::Pressed, &MouseButton::Left);
    assert!(
        input.is_mouse_button_down(MouseButton::Left) != input.is_mouse_button_up(MouseButton::Left)
    );
}

#[test]
fn a_clone_reads_the_same() {
    let mut input = Input::default();
    input.register_key(&key(ElementState::Pressed, VirtualKeyCode::Z));
    let copy = input.clone();
    input.prepare_for_next_frame();
    assert!(copy.is_key_toggled_down(VirtualKeyCode::Z));
    assert!(!input.is_key_toggled_down(VirtualKeyCode::Z));
    assert!(input.is_key_down(VirtualKeyCode::Z));
}
