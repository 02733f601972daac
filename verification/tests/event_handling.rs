use ui::controls::{Bindings, PossibleBinds, PossibleInputs};
use ui::event_handling::{
    background_response, button_response, listbox_response, slider_response, textbox_response,
    BackgroundResponse, ButtonResponse, ListBoxResponse, SliderResponse, TextBoxResponse,
};
use ui::window_events::UIEvent;

fn press(b: PossibleInputs) -> UIEvent {
    UIEvent::MouseButtonPressed { button: b, x: 0, y: 0 }
}
fn release(b: PossibleInputs) -> UIEvent {
    UIEvent::MouseButtonReleased { button: b, x: 0, y: 0 }
}
fn key(code: PossibleInputs, ctrl: bool) -> UIEvent {
    UIEvent::KeyPressed { code, ctrl, alt: false, shift: false, system: false }
}
fn key_up(code: PossibleInputs) -> UIEvent {
    UIEvent::KeyReleased { code, ctrl: false, alt: false, shift: false, system: false }
}
const MOVED: UIEvent = UIEvent::MouseMoved { x: 1, y: 1 };

#[test]
fn button_responses() {
    let mut binds = Bindings::default();
    binds.input_pressed(PossibleInputs::ButtonLeft);
    assert_eq!(button_response(true, &binds, &press(PossibleInputs::ButtonLeft)), ButtonResponse::BindPressed);
    assert_eq!(button_response(true, &binds, &MOVED), ButtonResponse::BindPressed);
    assert_eq!(button_response(false, &binds, &press(PossibleInputs::ButtonLeft)), ButtonResponse::Ignore);
    assert_eq!(button_response(true, &binds, &press(PossibleInputs::ButtonRight)), ButtonResponse::Rerender);
    binds.input_released(PossibleInputs::ButtonLeft);
    assert_eq!(button_response(true, &binds, &release(PossibleInputs::ButtonLeft)), ButtonResponse::BindReleased);
    assert_eq!(button_response(true, &binds, &MOVED), ButtonResponse::Rerender);
    assert_eq!(button_response(true, &binds, &UIEvent::Other), ButtonResponse::Rerender);
}

#[test]
fn listbox_responses() {
    let mut binds = Bindings::default();
    binds.input_pressed(PossibleInputs::ButtonLeft);
    assert_eq!(listbox_response(true, &binds, &MOVED), ListBoxResponse::BindPressedWithEvent);
    assert_eq!(listbox_response(true, &binds, &press(PossibleInputs::ButtonLeft)), ListBoxResponse::BindPressed);
    assert_eq!(listbox_response(true, &binds, &UIEvent::Other), ListBoxResponse::Ignore);
    binds.input_released(PossibleInputs::ButtonLeft);
    assert_eq!(listbox_response(true, &binds, &release(PossibleInputs::ButtonLeft)), ListBoxResponse::BindReleased);
    assert_eq!(listbox_response(false, &binds, &release(PossibleInputs::ButtonLeft)), ListBoxResponse::Ignore);
}

#[test]
fn slider_responses() {
    let mut binds = Bindings::default();
    binds.input_pressed(PossibleInputs::ButtonLeft);
    assert_eq!(slider_response(false, &binds, &press(PossibleInputs::ButtonLeft)), SliderResponse::BindPressed);
    assert_eq!(slider_response(true, &binds, &MOVED), SliderResponse::Drag);
    assert_eq!(slider_response(false, &binds, &MOVED), SliderResponse::Ignore);
    binds.input_released(PossibleInputs::ButtonLeft);
    assert_eq!(slider_response(false, &binds, &release(PossibleInputs::ButtonLeft)), SliderResponse::BindReleased);
    assert_eq!(slider_response(false, &binds, &release(PossibleInputs::ButtonRight)), SliderResponse::Ignore);
}

#[test]
fn background_responses() {
    let binds = Bindings::default();
    assert_eq!(background_response(true, false, &binds, &MOVED), BackgroundResponse::EmptyEvent);
    assert_eq!(background_response(false, false, &binds, &MOVED), BackgroundResponse::Nothing);
    assert_eq!(
        background_response(false, true, &binds, &release(PossibleInputs::ButtonLeft)),
        BackgroundResponse::EmptyEventRerender
    );
    assert_eq!(
        background_response(false, false, &binds, &release(PossibleInputs::ButtonLeft)),
        BackgroundResponse::Nothing
    );
}

#[test]
fn textbox_responses() {
    let mut binds = Bindings::default();
    binds.input_pressed(PossibleInputs::Escape);
    assert_eq!(textbox_response(false, false, &binds, &key(PossibleInputs::Escape, false)), TextBoxResponse::Deselect);
    assert_eq!(textbox_response(false, false, &binds, &key(PossibleInputs::X, true)), TextBoxResponse::Cut);
    assert_eq!(textbox_response(false, false, &binds, &key(PossibleInputs::C, true)), TextBoxResponse::Copy);
    assert_eq!(textbox_response(false, false, &binds, &key(PossibleInputs::V, true)), TextBoxResponse::Paste);
    assert_eq!(textbox_response(false, false, &binds, &key(PossibleInputs::A, true)), TextBoxResponse::Ignore);
    assert_eq!(textbox_response(true, false, &binds, &key(PossibleInputs::A, true)), TextBoxResponse::SelectAll);
    assert_eq!(textbox_response(true, false, &binds, &key(PossibleInputs::B, false)), TextBoxResponse::KeyWhileSelected);
    assert_eq!(textbox_response(true, true, &binds, &MOVED), TextBoxResponse::Drag);
    assert_eq!(textbox_response(true, false, &binds, &UIEvent::TextEntered { unicode: 'a' }), TextBoxResponse::TextEntered);
    assert_eq!(textbox_response(false, false, &binds, &UIEvent::TextEntered { unicode: 'a' }), TextBoxResponse::Ignore);
    binds.input_pressed(PossibleInputs::Left);
    assert_eq!(textbox_response(true, false, &binds, &key(PossibleInputs::Left, false)), TextBoxResponse::MoveCursorLeft);
    binds.input_pressed(PossibleInputs::ButtonLeft);
    assert_eq!(textbox_response(false, false, &binds, &press(PossibleInputs::ButtonLeft)), TextBoxResponse::BindPressed);
    binds.input_released(PossibleInputs::ButtonLeft);
    assert_eq!(textbox_response(false, false, &binds, &release(PossibleInputs::ButtonLeft)), TextBoxResponse::BindReleased);
    assert_eq!(textbox_response(true, false, &binds, &key_up(PossibleInputs::Q)), TextBoxResponse::KeyWhileSelected);
    binds.set_bind(PossibleInputs::Enter, PossibleBinds::Select);
    binds.input_pressed(PossibleInputs::Enter);
    assert_eq!(textbox_response(false, false, &binds, &key(PossibleInputs::Enter, false)), TextBoxResponse::BindPressed);
}

#[test]
fn background_event_handler_redraws_on_release_inside() {
    let binds = Bindings::default();
    let bounds = ui::geometry::IntRect::new(0, 0, 100, 100);
    let inside = ui::geometry::Vector2i::new(5, 5);
    let release = UIEvent::MouseButtonReleased { button: PossibleInputs::ButtonLeft, x: 5, y: 5 };
    let out = ui::event_handling::background_event_handler(false, bounds, bounds, inside, &binds, &release);
    assert!(out.hover);
    assert_eq!(out.response, BackgroundResponse::EmptyEventRerender);
    assert!(out.adds_empty_event && out.rerender);
    let moved = UIEvent::MouseMoved { x: 5, y: 5 };
    let out = ui::event_handling::background_event_handler(false, bounds, bounds, inside, &binds, &moved);
    assert_eq!(out.response, BackgroundResponse::EmptyEvent);
    assert!(out.adds_empty_event && !out.rerender);
    let outside = ui::geometry::Vector2i::new(500, 5);
    let out = ui::event_handling::background_event_handler(true, bounds, bounds, outside, &binds, &moved);
    assert!(!out.hover);
    assert_eq!(out.response, BackgroundResponse::Nothing);
    assert!(!out.adds_empty_event && out.rerender);
}

#[test]
fn slider_outcome_reports_only_changes() {
    let outcome = ui::event_handling::slider_event_outcome;
    assert_eq!(outcome(SliderResponse::BindPressed, true), (true, true));
    assert_eq!(outcome(SliderResponse::BindPressed, false), (false, false));
    assert_eq!(outcome(SliderResponse::BindReleased, true), (true, true));
    assert_eq!(outcome(SliderResponse::BindReleased, false), (false, false));
    assert_eq!(outcome(SliderResponse::Drag, false), (true, true));
    assert_eq!(outcome(SliderResponse::Ignore, true), (false, false));
}
