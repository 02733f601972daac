use ui::event_handling::ButtonResponse;
use ui::window_events::UIEvent;
use ui::geometry::{IntRect, Vector2i};
use ui::mouse_ui_states::{ButtonMouseState, UIMouseStates};

#[test]
fn click_and_hover_queries() {
    assert!(UIMouseStates::Click.is_click());
    assert!(UIMouseStates::Click.is_hover());
    assert!(UIMouseStates::Hover.is_hover());
    assert!(!UIMouseStates::Hover.is_click());
    assert!(!UIMouseStates::Nothing.is_hover());
    assert_eq!(UIMouseStates::default(), UIMouseStates::Nothing);
}

#[test]
fn set_hover_keeps_click() {
    let mut s = UIMouseStates::Click;
    s.set_hover(true);
    assert_eq!(s, UIMouseStates::Click);
    s.set_hover(false);
    assert_eq!(s, UIMouseStates::Nothing);
    s.set_hover(true);
    assert_eq!(s, UIMouseStates::Hover);
}

#[test]
fn rect_contains_is_half_open() {
    let r = IntRect::new(0, 0, 4, 4);
    assert!(r.contains(Vector2i::new(2, 2)));
    assert!(r.contains(Vector2i::new(0, 0)));
    assert!(!r.contains(Vector2i::new(4, 2)));
    let neg = IntRect::new(4, 4, -4, -4);
    assert!(neg.contains(Vector2i::new(0, 0)));
    assert!(!neg.contains(Vector2i::new(4, 4)));
    assert!(!IntRect::new(0, 0, 1, 1).contains(Vector2i::new(20, 10)));
}

#[test]
fn button_press_and_release() {
    let mut b = ButtonMouseState::new(IntRect::new(10, 10, 20, 20));
    b.set_hover(Vector2i::new(15, 15));
    assert_eq!(b.current_mouse_state, UIMouseStates::Hover);
    assert!(b.rerender);
    b.rerender = false;
    b.bind_pressed(Vector2i::new(15, 15));
    assert_eq!(b.current_mouse_state, UIMouseStates::Click);
    b.rerender = false;
    b.set_hover(Vector2i::new(16, 16));
    assert_eq!(b.current_mouse_state, UIMouseStates::Click);
    assert!(!b.rerender);
    b.bind_released_at(Vector2i::new(16, 16));
    assert_eq!(b.current_mouse_state, UIMouseStates::Hover);
    b.bind_pressed(Vector2i::new(0, 0));
    assert_eq!(b.current_mouse_state, UIMouseStates::Nothing);
    b.bind_released();
    assert_eq!(b.current_mouse_state, UIMouseStates::Nothing);
    assert!(b.rerender);
}

#[test]
fn button_event_handler_clicks_and_emits() {
    let mut binds = ui::controls::Bindings::default();
    let left = ui::controls::PossibleInputs::ButtonLeft;
    let inside = Vector2i::new(5, 5);
    let mut b = ButtonMouseState::new(IntRect::new(0, 0, 10, 10));
    binds.input_pressed(left);
    let out = b.event_handler(&binds, &UIEvent::MouseButtonPressed { button: left, x: 5, y: 5 }, inside, true);
    assert_eq!(out.response, ButtonResponse::BindPressed);
    assert!(!out.emits && out.rerender);
    assert_eq!(b.current_mouse_state, UIMouseStates::Click);
    binds.input_released(left);
    let out = b.event_handler(&binds, &UIEvent::MouseButtonReleased { button: left, x: 5, y: 5 }, inside, true);
    assert_eq!(out.response, ButtonResponse::BindReleased);
    assert!(out.emits && out.rerender);
    assert_eq!(b.current_mouse_state, UIMouseStates::Hover);
    let mut c = ButtonMouseState::new(IntRect::new(0, 0, 10, 10));
    c.event_handler(&binds, &UIEvent::MouseButtonReleased { button: left, x: 5, y: 5 }, inside, false);
    assert_eq!(c.current_mouse_state, UIMouseStates::Nothing);
    let out = c.event_handler(&binds, &UIEvent::MouseMoved { x: 50, y: 50 }, Vector2i::new(50, 50), false);
    assert_eq!(out.response, ButtonResponse::Ignore);
    assert!(!out.emits && !out.rerender);
}
