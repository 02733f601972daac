use ui::controls::{Bindings, PossibleBinds, PossibleInputs};
use ui::controls::PossibleBinds as B;
use ui::controls::PossibleInputs as I;
use ui::window_events::UIEvent;

#[test]
fn test_remove_bind() {
    let binds: &mut Bindings = &mut Default::default();

    binds.remove_bind(PossibleInputs::ButtonLeft, PossibleBinds::Select);
    assert_eq!(binds.get_binding(PossibleInputs::ButtonLeft), None);

    assert!(!binds.has_bind_entry(PossibleBinds::Select));
}

#[test]
fn test_set_bind() {
    let binds: &mut Bindings = &mut Default::default();

    binds.set_bind(PossibleInputs::A, PossibleBinds::Select);

    binds.get_binding(PossibleInputs::A).expect("unit-test");
    assert!(binds.has_bind_entry(PossibleBinds::Select));
    assert!(binds.is_input_registered(PossibleBinds::Select, PossibleInputs::A));
}

#[test]
fn test_just_released() {
    let binds: &mut Bindings = &mut Default::default();

    binds.input_released(PossibleInputs::ButtonLeft);
    assert!(binds.is_bind_released(PossibleBinds::Select));
}

#[test]
fn test_is_pressed() {
    let binds: &mut Bindings = &mut Default::default();

    binds.input_pressed(PossibleInputs::ButtonLeft);
    assert!(binds.is_bind_pressed(PossibleBinds::Select));
}

#[test]
fn default_bindings_table() {
    let binds = Bindings::default();
    assert_eq!(binds.get_binding(PossibleInputs::ButtonLeft), Some(PossibleBinds::Select));
    assert_eq!(binds.get_binding(PossibleInputs::Escape), Some(PossibleBinds::Escape));
    assert_eq!(binds.get_binding(PossibleInputs::Up), Some(PossibleBinds::UIUp));
    assert_eq!(binds.get_binding(PossibleInputs::VerticalWheel), Some(PossibleBinds::UIDown));
    assert_eq!(binds.get_binding(PossibleInputs::HorizontalWheel), Some(PossibleBinds::UIRight));
    assert_eq!(binds.get_binding(PossibleInputs::A), None);
    assert!(binds.is_input_registered(PossibleBinds::UIUp, PossibleInputs::VerticalWheel));
    assert!(binds.is_input_registered(PossibleBinds::UIDown, PossibleInputs::VerticalWheel));
    assert!(binds.is_bind_released(PossibleBinds::Select));
    assert!(!binds.is_bind_pressed(PossibleBinds::Select));
}

#[test]
fn unbound_input_changes_nothing() {
    let mut binds = Bindings::default();
    binds.input_pressed(PossibleInputs::Z);
    for b in [
        PossibleBinds::Select,
        PossibleBinds::UIUp,
        PossibleBinds::UIDown,
        PossibleBinds::UILeft,
        PossibleBinds::UIRight,
        PossibleBinds::Escape,
    ] {
        assert!(!binds.is_bind_pressed(b));
    }
}

#[test]
fn pressed_and_binded() {
    let mut binds = Bindings::default();
    binds.input_pressed(PossibleInputs::ButtonLeft);
    assert!(binds.is_bind_pressed_and_binded(PossibleInputs::ButtonLeft, PossibleBinds::Select));
    assert!(!binds.is_bind_pressed_and_binded(PossibleInputs::A, PossibleBinds::Select));
    assert!(!binds.is_bind_released_and_binded(PossibleInputs::ButtonLeft, PossibleBinds::Select));
    binds.input_released(PossibleInputs::ButtonLeft);
    assert!(binds.is_bind_released_and_binded(PossibleInputs::ButtonLeft, PossibleBinds::Select));
}

#[test]
fn event_handler_presses_and_releases() {
    let mut binds = Bindings::default();
    binds.event_handler(UIEvent::KeyPressed { code: PossibleInputs::Escape, ctrl: false, alt: false, shift: false, system: false });
    assert!(binds.is_bind_pressed(PossibleBinds::Escape));
    binds.event_handler(UIEvent::MouseMoved { x: 1, y: 2 });
    assert!(binds.is_bind_pressed(PossibleBinds::Escape));
    binds.event_handler(UIEvent::KeyReleased { code: PossibleInputs::Escape, ctrl: false, alt: false, shift: false, system: false });
    binds.event_handler(UIEvent::MouseButtonPressed { button: PossibleInputs::ButtonLeft, x: 0, y: 0 });
    assert!(binds.is_bind_pressed(PossibleBinds::Select));
    assert!(binds.is_bind_released(PossibleBinds::Escape));
}

#[test]
fn shared_wheel_presses_only_its_current_bind() {
    let mut binds = Bindings::default();
    binds.input_pressed(PossibleInputs::VerticalWheel);
    assert!(binds.is_bind_pressed(PossibleBinds::UIDown));
    assert!(!binds.is_bind_pressed(PossibleBinds::UIUp));
}

#[test]
fn remove_bind_keeps_other_inputs() {
    let mut binds = Bindings::default();
    binds.remove_bind(PossibleInputs::Up, PossibleBinds::UIUp);
    assert_eq!(binds.get_binding(PossibleInputs::Up), None);
    assert!(binds.has_bind_entry(PossibleBinds::UIUp));
    assert!(binds.is_input_registered(PossibleBinds::UIUp, PossibleInputs::VerticalWheel));
    assert!(!binds.is_input_registered(PossibleBinds::UIUp, PossibleInputs::Up));
}

#[test]
fn remove_bind_without_entry_does_nothing() {
    let mut binds = Bindings::default();
    binds.remove_bind(PossibleInputs::ButtonLeft, PossibleBinds::Select);
    binds.remove_bind(PossibleInputs::Escape, PossibleBinds::Select);
    assert_eq!(binds.get_binding(PossibleInputs::Escape), Some(PossibleBinds::Escape));
}

#[test]
fn remove_bind_unbinds_input_of_other_bind() {
    // The input loses its binding even when it pointed to another bind.
    let mut binds = Bindings::default();
    binds.remove_bind(PossibleInputs::Escape, PossibleBinds::Select);
    assert_eq!(binds.get_binding(PossibleInputs::Escape), None);
    assert!(binds.has_bind_entry(PossibleBinds::Select));
}

#[test]
fn modifiers_press_their_binds() {
    let mut binds = Bindings::default();
    binds.set_bind(PossibleInputs::LControl, PossibleBinds::Select);
    binds.set_bind(PossibleInputs::RShift, PossibleBinds::Escape);
    binds.ctrl_alt_shift_system_is_pressed(false, true, false, true);
    assert!(!binds.is_bind_pressed(PossibleBinds::Select));
    assert!(!binds.is_bind_pressed(PossibleBinds::Escape));
    binds.ctrl_alt_shift_system_is_pressed(true, false, true, false);
    assert!(binds.is_bind_pressed(PossibleBinds::Select));
    assert!(binds.is_bind_pressed(PossibleBinds::Escape));
}

#[test]
fn get_bind_info_reports_state() {
    let mut binds = Bindings::default();
    assert_eq!(binds.get_bind_info(PossibleBinds::Select).map(|i| i.is_pressed), Some(false));
    binds.input_pressed(PossibleInputs::ButtonLeft);
    assert_eq!(binds.get_bind_info(PossibleBinds::Select).map(|i| i.is_pressed), Some(true));
    binds.remove_bind(PossibleInputs::ButtonLeft, PossibleBinds::Select);
    assert!(binds.get_bind_info(PossibleBinds::Select).is_none());
}

#[test]
fn listing_the_default_table() {
    let binds = Bindings::default();
    assert_eq!(
        binds.input_binding_list(),
        vec![
            (I::ButtonLeft, B::Select),
            (I::VerticalWheel, B::UIDown),
            (I::HorizontalWheel, B::UIRight),
            (I::Escape, B::Escape),
            (I::Left, B::UILeft),
            (I::Right, B::UIRight),
            (I::Up, B::UIUp),
            (I::Down, B::UIDown),
        ]
    );
    let entries = binds.binded_input_list();
    let released = ui::controls::BindInfo { is_pressed: false };
    assert_eq!(
        entries,
        vec![
            (B::Select, vec![I::ButtonLeft], released),
            (B::UIUp, vec![I::VerticalWheel, I::Up], released),
            (B::UIDown, vec![I::VerticalWheel, I::Down], released),
            (B::UILeft, vec![I::HorizontalWheel, I::Left], released),
            (B::UIRight, vec![I::HorizontalWheel, I::Right], released),
            (B::Escape, vec![I::Escape], released),
        ]
    );
    assert_eq!(binds.registered_inputs(B::UIUp), vec![I::VerticalWheel, I::Up]);
}

#[test]
fn lists_rebuild_the_table() {
    let mut binds = Bindings::default();
    binds.set_bind(PossibleInputs::A, PossibleBinds::Select);
    binds.input_pressed(PossibleInputs::A);
    binds.remove_bind(PossibleInputs::Escape, PossibleBinds::Escape);
    let pairs = binds.input_binding_list();
    let entries = binds.binded_input_list();
    let rebuilt = Bindings::from_parts(&pairs, &entries);
    assert_eq!(rebuilt.input_binding_list(), pairs);
    assert_eq!(rebuilt.binded_input_list(), entries);
    assert!(rebuilt.is_bind_pressed(PossibleBinds::Select));
    assert!(!rebuilt.has_bind_entry(PossibleBinds::Escape));
}

#[test]
fn from_parts_later_entries_win() {
    let pairs = vec![(PossibleInputs::A, PossibleBinds::Select), (PossibleInputs::A, PossibleBinds::Escape)];
    let entries = vec![
        (PossibleBinds::Escape, vec![PossibleInputs::B], ui::controls::BindInfo { is_pressed: true }),
        (PossibleBinds::Escape, vec![PossibleInputs::A, PossibleInputs::A], ui::controls::BindInfo { is_pressed: false }),
    ];
    let b = Bindings::from_parts(&pairs, &entries);
    assert_eq!(b.get_binding(PossibleInputs::A), Some(PossibleBinds::Escape));
    assert_eq!(b.registered_inputs(PossibleBinds::Escape), vec![PossibleInputs::A]);
    assert!(b.is_bind_released(PossibleBinds::Escape));
    assert!(!b.has_bind_entry(PossibleBinds::Select));
}
