use ui::controls::{Bindings, PossibleInputs};
use ui::event_handling::TextBoxResponse;
use ui::geometry::Vector2i;
use ui::window_events::UIEvent;
use ui::positioning::UIPosition;
use ui::textbox::{FixedSizeOneLineTextbox, ShownText};

fn chars(s: &str) -> Vec<char> {
    s.chars().collect()
}

fn text(b: &FixedSizeOneLineTextbox) -> String {
    b.utf32_str().into_iter().collect()
}

fn boxed(s: &str) -> FixedSizeOneLineTextbox {
    let mut b = FixedSizeOneLineTextbox::new(UIPosition::default(), 100, chars(s), 7, 9);
    b.update_size(16);
    b
}

fn shown(len: usize) -> ShownText {
    ShownText { starting_idx: 0, shown_len: len, glyph_width: Some(8) }
}

/// Presses at the first point and drags to the second, selecting `from..=to`.
fn select(b: &mut FixedSizeOneLineTextbox, len: usize, from: usize, to: usize) {
    b.bind_pressed(Vector2i::new(10, 5), shown(len), Some(from));
    b.drag_mouse(Vector2i::new(60, 5), shown(len), Some(from), Some(to));
}

#[test]
fn new_box_puts_cursor_on_last_character() {
    let b = FixedSizeOneLineTextbox::new(UIPosition::default(), 100, chars("abc"), 7, 9);
    assert_eq!(b.cursor_idx(), 2);
    assert_eq!(text(&b), "abc");
    assert_eq!(b.event_id(), 7);
    assert_eq!(b.sync_id(), 9);
    assert!(!b.is_selected());
    assert!(!b.is_dragging());
    assert!(b.needs_rerender());
    let e = FixedSizeOneLineTextbox::new(UIPosition::default(), 100, Vec::new(), 0, 0);
    assert_eq!(e.cursor_idx(), 0);
}

#[test]
fn update_size_adds_the_logarithm_of_the_height() {
    let mut b = FixedSizeOneLineTextbox::new(UIPosition::default(), 100, chars("abc"), 7, 9);
    b.update_size(16);
    assert_eq!(b.global_bounds().height, 20);
    b.update_size(1);
    assert_eq!(b.global_bounds().height, 1);
    b.update_size(31);
    assert_eq!(b.global_bounds().height, 35);
    assert_eq!(b.global_bounds().width, 100);
}

#[test]
fn typing_at_the_end_then_backspace_restores() {
    let mut b = boxed("abc");
    b.text_entered('d');
    assert_eq!(text(&b), "abcd");
    assert_eq!(b.cursor_idx(), 3);
    b.text_entered('\u{8}');
    assert_eq!(text(&b), "abc");
    assert_eq!(b.cursor_idx(), 2);
}

#[test]
fn typing_in_the_middle_inserts_under_the_cursor() {
    let mut b = boxed("abc");
    b.move_cursor(1);
    b.text_entered('x');
    assert_eq!(text(&b), "axbc");
    assert_eq!(b.cursor_idx(), 2);
}

#[test]
fn backspace_removes_the_character_under_the_cursor() {
    let mut b = boxed("abc");
    b.move_cursor(1);
    b.text_entered('\u{8}');
    assert_eq!(text(&b), "ac");
    assert_eq!(b.cursor_idx(), 0);
    b.text_entered('\u{8}');
    assert_eq!(text(&b), "c");
    assert_eq!(b.cursor_idx(), 0);
    b.text_entered('\u{8}');
    b.text_entered('\u{8}');
    assert_eq!(text(&b), "");
    assert_eq!(b.cursor_idx(), 0);
}

#[test]
fn delete_removes_the_character_after_the_cursor() {
    let mut b = boxed("abc");
    b.move_cursor(0);
    b.text_entered('\u{7f}');
    assert_eq!(text(&b), "ac");
    assert_eq!(b.cursor_idx(), 0);
    b.move_cursor(1);
    b.text_entered('\u{7f}');
    assert_eq!(text(&b), "a");
    assert_eq!(b.cursor_idx(), 1);
    b.text_entered('\u{7f}');
    assert_eq!(text(&b), "a");
}

#[test]
fn control_characters_are_ignored() {
    let mut b = boxed("abc");
    b.text_entered('\n');
    b.text_entered('\r');
    b.text_entered('\u{100}');
    assert_eq!(text(&b), "abc");
    assert_eq!(b.cursor_idx(), 2);
}

#[test]
fn cursor_stays_within_the_text() {
    let mut b = boxed("abc");
    b.move_cursor(10);
    assert_eq!(b.cursor_idx(), 3);
    b.move_cursor_right();
    assert_eq!(b.cursor_idx(), 3);
    b.move_cursor(0);
    b.move_cursor_left();
    assert_eq!(b.cursor_idx(), 0);
}

#[test]
fn pressing_inside_selects_and_moves_the_cursor() {
    let mut b = boxed("abcdef");
    b.bind_pressed(Vector2i::new(10, 5), shown(6), Some(4));
    assert!(b.is_hover());
    assert!(b.is_selected());
    assert!(b.is_dragging());
    assert_eq!(b.cursor_idx(), 4);
    b.bind_pressed(Vector2i::new(10, 5), shown(6), None);
    assert_eq!(b.cursor_idx(), 6);
    b.bind_pressed(Vector2i::new(500, 5), shown(6), Some(1));
    assert!(!b.is_hover());
    assert!(!b.is_selected());
    assert_eq!(b.cursor_idx(), 6);
}

#[test]
fn dragging_selects_and_backspace_deletes_the_selection() {
    let mut b = boxed("abcdef");
    select(&mut b, 6, 1, 3);
    assert_eq!(b.selection_indices(), (Some(1), Some(3)));
    assert_eq!(b.copy(), Some(chars("bcd")));
    assert_eq!(b.select_box_range(shown(6)), Some((1, 3)));
    b.text_entered('\u{8}');
    assert_eq!(text(&b), "aef");
    assert_eq!(b.cursor_idx(), 1);
    assert_eq!(b.selection_indices(), (None, None));
}

#[test]
fn typing_over_a_selection_replaces_it() {
    let mut b = boxed("abcdef");
    select(&mut b, 6, 3, 1);
    b.text_entered('x');
    assert_eq!(text(&b), "axef");
}

#[test]
fn cut_returns_and_removes_the_selection() {
    let mut b = boxed("abcdef");
    select(&mut b, 6, 2, 4);
    assert_eq!(b.cut(), Some(chars("cde")));
    assert_eq!(text(&b), "abf");
    let mut c = boxed("abc");
    assert_eq!(c.cut(), None);
    assert_eq!(text(&c), "abc");
}

#[test]
fn paste_types_each_character() {
    let mut b = boxed("ab");
    b.move_cursor(2);
    b.paste(&chars("xy"));
    assert_eq!(text(&b), "abxy");
    assert_eq!(b.cursor_idx(), 4);
    let mut c = boxed("abcdef");
    select(&mut c, 6, 1, 4);
    // Deleting the selection leaves the cursor on the last character, so the
    // pasted text goes at the end.
    c.paste(&chars("Z"));
    assert_eq!(text(&c), "afZ");
}

#[test]
fn drag_moves_the_selection_end_with_the_cursor() {
    let mut b = boxed("abcdef");
    select(&mut b, 6, 1, 2);
    b.drag_mouse(Vector2i::new(70, 5), shown(6), Some(1), Some(3));
    assert_eq!(b.cursor_idx(), 3);
    assert_eq!(b.selection_indices(), (Some(1), Some(3)));
    b.bind_released(Vector2i::new(70, 5), shown(6), Some(1), Some(4));
    assert!(!b.is_dragging());
    assert_eq!(b.selection_indices(), (Some(1), Some(4)));
}

#[test]
fn a_short_drag_selects_nothing() {
    let mut b = boxed("abcdef");
    b.bind_pressed(Vector2i::new(10, 5), shown(6), Some(2));
    b.drag_mouse(Vector2i::new(12, 5), shown(6), Some(2), Some(2));
    assert_eq!(b.selection_indices(), (None, None));
    b.drag_mouse(Vector2i::new(30, 5), shown(6), Some(2), Some(2));
    assert_eq!(b.selection_indices(), (Some(2), Some(2)));
}

#[test]
fn deselect_clears_selection() {
    let mut b = boxed("abcdef");
    select(&mut b, 6, 1, 2);
    b.deselect();
    assert!(!b.is_selected());
    assert_eq!(b.selection_indices(), (None, None));
}

#[test]
fn set_string_and_sync_move_cursor_to_end() {
    let mut b = boxed("abc");
    b.set_string(chars("hello"));
    assert_eq!(b.cursor_idx(), 5);
    b.bind_pressed(Vector2i::new(10, 5), shown(5), Some(1));
    b.sync(chars("hi"), shown(2), None);
    assert_eq!(text(&b), "hi");
    assert_eq!(b.cursor_idx(), 2);
    assert!(!b.is_selected());
    assert_eq!(b.triggered_event(), (7, chars("hi")));
}

#[test]
fn ascii_text_is_lowered() {
    let b = boxed("AbC1");
    assert_eq!(b.ascii_str(), Some(chars("abc1")));
    let c = boxed("Été");
    assert_eq!(c.ascii_str(), None);
}

#[test]
fn rendering_clears_the_redraw_flag() {
    let mut b = boxed("abc");
    b.rendered();
    assert!(!b.needs_rerender());
    b.text_entered('x');
    assert!(b.needs_rerender());
}

fn key(code: PossibleInputs, ctrl: bool) -> UIEvent {
    UIEvent::KeyPressed { code, ctrl, alt: false, shift: false, system: false }
}

#[test]
fn event_handler_runs_the_chosen_response() {
    let mut binds = Bindings::default();
    let mut b = boxed("abc");
    let inside = Vector2i::new(10, 5);
    let none: Vec<char> = Vec::new();

    let out = b.event_handler(&binds, &UIEvent::TextEntered { unicode: 'x' }, inside, shown(3), None, None, &none);
    assert_eq!(out.response, TextBoxResponse::Ignore);
    assert!(out.events.is_empty());
    assert!(!out.rerender);
    assert_eq!(text(&b), "abc");

    binds.input_pressed(PossibleInputs::ButtonLeft);
    let press = UIEvent::MouseButtonPressed { button: PossibleInputs::ButtonLeft, x: 10, y: 5 };
    let out = b.event_handler(&binds, &press, inside, shown(3), None, Some(1), &none);
    assert_eq!(out.response, TextBoxResponse::BindPressed);
    assert_eq!(out.events, vec![(7, chars("abc"))]);
    assert!(out.rerender);
    assert!(b.is_selected());
    assert_eq!(b.cursor_idx(), 1);

    // A second press keeps the box selected: no event, no redraw.
    let out = b.event_handler(&binds, &press, inside, shown(3), None, Some(1), &none);
    assert!(out.events.is_empty());
    assert!(!out.rerender);

    binds.input_released(PossibleInputs::ButtonLeft);
    let release = UIEvent::MouseButtonReleased { button: PossibleInputs::ButtonLeft, x: 10, y: 5 };
    let out = b.event_handler(&binds, &release, inside, shown(3), Some(1), Some(1), &none);
    assert_eq!(out.response, TextBoxResponse::BindReleased);
    assert!(!out.rerender);
    assert!(!b.is_dragging());

    let out = b.event_handler(&binds, &UIEvent::TextEntered { unicode: 'x' }, inside, shown(3), None, None, &none);
    assert_eq!(out.response, TextBoxResponse::TextEntered);
    assert_eq!(out.events, vec![(7, chars("axbc"))]);

    let out = b.event_handler(&binds, &key(PossibleInputs::V, true), inside, shown(4), None, None, &chars("yz"));
    assert_eq!(out.response, TextBoxResponse::Paste);
    assert_eq!(text(&b), "axyzbc");

    let out = b.event_handler(&binds, &key(PossibleInputs::Q, false), inside, shown(6), None, None, &none);
    assert_eq!(out.response, TextBoxResponse::KeyWhileSelected);
    assert_eq!(out.events.len(), 1);
    assert!(!out.rerender);

    binds.input_pressed(PossibleInputs::Escape);
    let out = b.event_handler(&binds, &key(PossibleInputs::Escape, false), inside, shown(6), None, None, &none);
    assert_eq!(out.response, TextBoxResponse::Deselect);
    assert_eq!(out.events, vec![(7, chars("axyzbc"))]);
    assert!(!b.is_selected());
}

#[test]
fn event_handler_cuts_and_copies() {
    let binds = Bindings::default();
    let mut b = boxed("abcdef");
    select(&mut b, 6, 1, 3);
    let inside = Vector2i::new(10, 5);
    let none: Vec<char> = Vec::new();
    let out = b.event_handler(&binds, &key(PossibleInputs::C, true), inside, shown(6), None, None, &none);
    assert_eq!(out.response, TextBoxResponse::Copy);
    assert_eq!(out.copied, Some(chars("bcd")));
    assert!(out.events.is_empty());
    assert_eq!(text(&b), "abcdef");
    let out = b.event_handler(&binds, &key(PossibleInputs::X, true), inside, shown(6), None, None, &none);
    assert_eq!(out.response, TextBoxResponse::Cut);
    assert_eq!(out.copied, Some(chars("bcd")));
    assert_eq!(out.events, vec![(7, chars("aef"))]);
}

#[test]
fn moving_the_cursor_slides_the_shown_part() {
    let plan = ui::textbox::window_plan(5, 0, 3, 10);
    assert_eq!(plan, ui::textbox::WindowPlan::GrowLeft { end: 5 });
    let too_big = vec![true, true, false, false, false, false];
    assert_eq!(ui::textbox::grow_left(5, &too_big), 2);
    assert_eq!(ui::textbox::move_cursor_window(plan, 5, 10, &too_big), (2, 3, 5));

    let plan = ui::textbox::window_plan(1, 3, 4, 10);
    assert_eq!(plan, ui::textbox::WindowPlan::GrowRight { start: 1 });
    let too_big: Vec<bool> = (0..=10).map(|k| k >= 5).collect();
    assert_eq!(ui::textbox::move_cursor_window(plan, 1, 10, &too_big), (1, 3, 1));

    let plan = ui::textbox::window_plan(4, 3, 4, 10);
    assert_eq!(plan, ui::textbox::WindowPlan::Keep { start: 3, end: 7 });
    let too_big: Vec<bool> = (0..=10).map(|k| k >= 9).collect();
    assert_eq!(ui::textbox::move_cursor_window(plan, 4, 10, &too_big), (3, 5, 4));
    // Nothing fits past the current end: the shown part keeps its length.
    let too_big: Vec<bool> = (0..=10).map(|k| k >= 8).collect();
    assert_eq!(ui::textbox::grow_right(3, 7, 10, &too_big), 7);

    let plan = ui::textbox::window_plan(4, 3, 4, 7);
    assert_eq!(plan, ui::textbox::WindowPlan::Keep { start: 3, end: 7 });
    assert_eq!(ui::textbox::move_cursor_window(plan, 4, 7, &vec![false; 8]), (3, 4, 4));
}
