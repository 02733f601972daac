use ui::geometry::{IntRect, Vector2i, Vector2u16};
use ui::mouse_ui_states::UIMouseStates;
use ui::slider::{
    div_trunc, fraction_position, fraction_position_2d, hue_fraction, hue_quad_rects,
    slider_fraction_from_cursor, IncrementDecrementClickState,
};
use ui::positioning::UIPosition;

#[test]
fn cursor_fraction_is_clamped_to_the_slider() {
    let slider = IntRect::new(100, 50, 200, 10);
    assert_eq!(slider_fraction_from_cursor(Vector2i::new(100, 50), slider), Vector2u16::new(0, 0));
    assert_eq!(slider_fraction_from_cursor(Vector2i::new(200, 55), slider), Vector2u16::new(32767, 32767));
    assert_eq!(slider_fraction_from_cursor(Vector2i::new(0, 0), slider), Vector2u16::new(0, 0));
    assert_eq!(slider_fraction_from_cursor(Vector2i::new(1000, 1000), slider), Vector2u16::new(65535, 65535));
}

#[test]
fn truncating_division() {
    assert_eq!(div_trunc(7, 2), 3);
    assert_eq!(div_trunc(-7, 2), -3);
    assert_eq!(div_trunc(7, -2), -3);
    assert_eq!(div_trunc(-7, -2), 3);
    assert_eq!(div_trunc(i32::MIN, 1), i32::MIN);
}

#[test]
fn fraction_positions() {
    assert_eq!(
        fraction_position(Some(1), Some(100), 65535),
        UIPosition { top: Some(1), bottom: Some(100), left: Some(65535), right: Some(0) }
    );
    assert_eq!(
        fraction_position_2d(Vector2u16::new(5, 65530)),
        UIPosition { top: Some(65530), bottom: Some(5), left: Some(5), right: Some(65530) }
    );
}

#[test]
fn hue_picker_layout() {
    assert_eq!(hue_fraction(0), 0);
    assert_eq!(hue_fraction(180), 32767);
    assert_eq!(hue_fraction(360), 65535);
    let rects = hue_quad_rects(IntRect::new(10, 20, 60, 5));
    assert_eq!(rects.len(), 6);
    assert_eq!(rects[0], IntRect::new(10, 20, 10, 5));
    assert_eq!(rects[5], IntRect::new(60, 20, 10, 5));
    let rects = hue_quad_rects(IntRect::new(0, 0, 65, 5));
    assert_eq!(rects[1], IntRect::new(10, 0, 10, 5));
}

#[test]
fn increment_decrement_timer() {
    let mut s = IncrementDecrementClickState::Idle;
    s.on_bind_pressed(UIMouseStates::Click, UIMouseStates::Nothing, 5);
    assert_eq!(s, IncrementDecrementClickState::Increment { pressed_at: 5, last_update_at: 5 });
    s.on_bind_pressed(UIMouseStates::Click, UIMouseStates::Click, 6);
    assert_eq!(s, IncrementDecrementClickState::Decrement { pressed_at: 6, last_update_at: 6 });
    assert!(s.is_update_needed(20, 10, 3));
    assert!(!s.is_update_needed(16, 10, 3));
    s.increment_last_update_instant(20);
    assert!(!s.is_update_needed(22, 10, 3));
    s.on_bind_released();
    assert_eq!(s, IncrementDecrementClickState::Idle);
    s.on_mouse_moved(UIMouseStates::Click, UIMouseStates::Nothing, 30);
    assert_eq!(s, IncrementDecrementClickState::Increment { pressed_at: 30, last_update_at: 30 });
    s.on_mouse_moved(UIMouseStates::Hover, UIMouseStates::Nothing, 31);
    assert_eq!(s, IncrementDecrementClickState::Increment { pressed_at: 30, last_update_at: 30 });
    s.on_mouse_moved(UIMouseStates::Nothing, UIMouseStates::Nothing, 32);
    assert_eq!(s, IncrementDecrementClickState::Idle);
}
