use ui::controls::{Bindings, PossibleInputs};
use ui::event_handling::ListBoxResponse;
use ui::listbox::{UpDownClickState, UpDownScrollList};
use ui::mouse_ui_states::UIMouseStates;
use ui::window_events::UIEvent;

fn options(n: usize) -> Vec<String> {
    (1..=n).map(|i| format!("option {}", i)).collect()
}

#[test]
fn new_normalizes_buttons_and_selects_middle() {
    let l = UpDownScrollList::new(options(10), 5);
    assert_eq!(l.number_of_buttons(), 5);
    assert_eq!(l.current_option_idx(), 5);
    assert_eq!(l.current_option(), "option 6");
    let l = UpDownScrollList::new(options(4), 6);
    assert_eq!(l.number_of_buttons(), 3);
    let l = UpDownScrollList::new(options(3), 2);
    assert_eq!(l.number_of_buttons(), 1);
    let l = UpDownScrollList::new(Vec::new(), 3);
    assert_eq!(l.number_of_options(), 1);
    assert_eq!(l.number_of_buttons(), 1);
    assert_eq!(l.current_option(), "");
}

#[test]
fn scrolling_wraps_around() {
    let mut l = UpDownScrollList::new(options(3), 3);
    assert_eq!(l.current_option_idx(), 1);
    l.scroll_up();
    assert_eq!(l.current_option_idx(), 0);
    l.scroll_up();
    assert_eq!(l.current_option_idx(), 2);
    l.scroll_down();
    assert_eq!(l.current_option_idx(), 0);
    l.scroll_down();
    l.scroll_down();
    l.scroll_down();
    assert_eq!(l.current_option_idx(), 0);
}

#[test]
fn buttons_show_options_around_selection() {
    let l = UpDownScrollList::new(options(10), 5);
    assert_eq!(l.button_option_indices(), vec![3, 4, 5, 6, 7]);
    let mut l = UpDownScrollList::new(options(4), 3);
    l.sync_index(0);
    assert_eq!(l.button_option_indices(), vec![3, 0, 1]);
    let l = UpDownScrollList::new(options(1), 1);
    assert_eq!(l.button_option_indices(), vec![0]);
}

#[test]
fn sync_selects_existing_options_only() {
    let mut l = UpDownScrollList::new(options(4), 3);
    l.sync_index(3);
    assert_eq!(l.current_option_idx(), 3);
    l.sync_index(4);
    assert_eq!(l.current_option_idx(), 3);
    l.sync_string(&"option 2".to_string());
    assert_eq!(l.current_option_idx(), 1);
    l.sync_string(&"missing".to_string());
    assert_eq!(l.current_option_idx(), 1);
}

#[test]
fn selecting_a_button_selects_its_option() {
    let mut l = UpDownScrollList::new(options(10), 5);
    let shown = l.button_option_indices();
    l.select_button(0);
    assert_eq!(l.current_option_idx(), shown[0]);
    let shown = l.button_option_indices();
    l.select_button(4);
    assert_eq!(l.current_option_idx(), shown[4]);
    l.select_button(2);
    assert_eq!(l.current_option_idx(), shown[4]);
}

#[test]
fn bind_released_scrolls_or_selects() {
    let mut l = UpDownScrollList::new(options(5), 3);
    assert_eq!(l.current_option_idx(), 2);
    l.bind_released(false, true, false, None);
    assert_eq!(l.current_option_idx(), 2);
    l.bind_released(true, true, false, None);
    assert_eq!(l.current_option_idx(), 1);
    l.bind_released(true, false, true, None);
    assert_eq!(l.current_option_idx(), 2);
    l.bind_released(true, false, false, Some(2));
    assert_eq!(l.current_option_idx(), 3);
    l.bind_released(true, false, false, None);
    assert_eq!(l.current_option_idx(), 2);
    assert_eq!(l.click_state(), UpDownClickState::Idle);
}

#[test]
fn holding_a_scroll_button_repeats() {
    let mut l = UpDownScrollList::new(options(5), 3);
    l.bind_pressed(UIMouseStates::Click, UIMouseStates::Nothing, 100);
    assert_eq!(l.click_state(), UpDownClickState::Up { pressed_at: 100, last_update_at: 100 });
    // Another press while held keeps the running timer.
    l.bind_pressed(UIMouseStates::Nothing, UIMouseStates::Click, 150);
    assert_eq!(l.click_state(), UpDownClickState::Up { pressed_at: 100, last_update_at: 100 });
    assert!(!l.update(150, 100, 20));
    assert_eq!(l.current_option_idx(), 2);
    assert!(l.update(250, 100, 20));
    assert_eq!(l.current_option_idx(), 1);
    assert_eq!(l.click_state(), UpDownClickState::Up { pressed_at: 100, last_update_at: 250 });
    assert!(!l.update(260, 100, 20));
    assert!(l.update(271, 100, 20));
    assert_eq!(l.current_option_idx(), 0);
    l.on_event(&UIEvent::MouseMoved { x: 0, y: 0 }, true, false);
    assert!(l.click_state() != UpDownClickState::Idle);
    l.on_event(&UIEvent::MouseButtonReleased { button: ui::controls::PossibleInputs::ButtonLeft, x: 0, y: 0 }, true, false);
    assert_eq!(l.click_state(), UpDownClickState::Idle);
    l.bind_pressed(UIMouseStates::Hover, UIMouseStates::Click, 300);
    assert_eq!(l.click_state(), UpDownClickState::Down { pressed_at: 300, last_update_at: 300 });
    l.on_event(&UIEvent::MouseMoved { x: 0, y: 0 }, false, false);
    assert_eq!(l.click_state(), UpDownClickState::Idle);
}

#[test]
fn click_state_timing() {
    let s = UpDownClickState::Down { pressed_at: 10, last_update_at: 50 };
    assert!(s.is_update_needed(61, 50, 10));
    assert!(!s.is_update_needed(60, 50, 10));
    assert!(!s.is_update_needed(5, 0, 0));
    assert!(!UpDownClickState::Idle.is_update_needed(1000, 0, 0));
    let mut s = s;
    s.increment_last_update_instant(70);
    assert_eq!(s, UpDownClickState::Down { pressed_at: 10, last_update_at: 70 });
}

#[test]
fn widest_option_is_the_first_widest() {
    assert_eq!(ui::listbox::widest_option(&vec![3, 7, 7, -1]), (7, Some(1)));
    assert_eq!(ui::listbox::widest_option(&vec![-5, 0]), (0, None));
    assert_eq!(ui::listbox::widest_option(&vec![]), (0, None));
}

#[test]
fn list_event_handler_scrolls_and_reports() {
    let mut binds = Bindings::default();
    let left = PossibleInputs::ButtonLeft;
    let mut l = UpDownScrollList::new(options(10), 5);
    let release = UIEvent::MouseButtonReleased { button: left, x: 0, y: 0 };
    let out = l.event_handler(&binds, &release, true, UIMouseStates::Nothing, UIMouseStates::Hover, None, 0);
    assert_eq!(out.response, ListBoxResponse::BindReleased);
    assert!(out.emits && out.rerender);
    assert_eq!(l.current_option_idx(), 6);

    binds.input_pressed(left);
    let press = UIEvent::MouseButtonPressed { button: left, x: 0, y: 0 };
    let out = l.event_handler(&binds, &press, true, UIMouseStates::Click, UIMouseStates::Nothing, None, 42);
    assert_eq!(out.response, ListBoxResponse::BindPressed);
    assert!(!out.emits && out.rerender);
    assert_eq!(l.click_state(), UpDownClickState::Up { pressed_at: 42, last_update_at: 42 });

    let out = l.event_handler(&binds, &press, false, UIMouseStates::Nothing, UIMouseStates::Nothing, None, 43);
    assert_eq!(out.response, ListBoxResponse::Ignore);
    assert!(!out.emits && !out.rerender);
}
