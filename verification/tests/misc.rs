use ui::aspect_ratio::{DefaultAspectRatios, UnknownAspectRatio};
use ui::div::DivLayout;
use ui::geometry::{IntRect, Vector2i, Vector2u};
use ui::positioning::UIPosition;
use ui::textbox::TextBoxTriggeredEvent;

#[test]
fn aspect_ratio_names_round_trip() {
    let all = [
        DefaultAspectRatios::_32x9,
        DefaultAspectRatios::_21x9,
        DefaultAspectRatios::_17x9,
        DefaultAspectRatios::_16x10,
        DefaultAspectRatios::_16x9,
        DefaultAspectRatios::_4x3,
        DefaultAspectRatios::_1x1,
    ];
    for (i, a) in all.iter().enumerate() {
        assert_eq!(DefaultAspectRatios::from_str(&a.to_string()), Ok(*a));
        assert_eq!(a.index(), i);
        assert_eq!(DefaultAspectRatios::from_index(i), Some(*a));
    }
    assert_eq!(DefaultAspectRatios::_16x10.to_string(), "16x10");
    assert_eq!(DefaultAspectRatios::from_str("16:9"), Err(UnknownAspectRatio));
    assert_eq!(DefaultAspectRatios::from_str("16X9"), Err(UnknownAspectRatio));
    assert_eq!(DefaultAspectRatios::from_index(7), None);
}

#[test]
fn slice_names() {
    assert_eq!(ui::repeatable_3x1_sprite::SliceName::Middle.repr(), "middle");
    assert_eq!(ui::repeatable_3x3_sprite::SliceName::BottomRight.repr(), "bottom_right");
    assert_eq!(ui::repeatable_3x3_sprite::SliceName::Top.repr(), "top");
}

#[test]
fn div_layout_rules() {
    let pad = UIPosition { top: Some(5), bottom: Some(5), left: Some(10), right: Some(10) };
    let d = DivLayout::new(UIPosition::center(), Some(pad), Some(Vector2u::new(3, 4)));
    assert_eq!(d.padding(), None);
    assert!(!d.is_padding());
    assert!(!d.uses_relative_rect_size());
    let mut d = DivLayout::new(UIPosition::center(), Some(pad), None);
    assert!(d.is_padding());
    assert_eq!(d.children_rect(IntRect::new(0, 0, 100, 50)), IntRect::new(10, 5, 80, 40));
    assert_eq!(d.padded_extent(IntRect::new(0, 0, 30, 20)), Some(Vector2i::new(50, 30)));
    d.set_size(Vector2u::new(7, 8));
    assert_eq!(d.size(), Some(Vector2u::new(7, 8)));
    let d = DivLayout::new(UIPosition::center(), None, None);
    assert!(d.uses_relative_rect_size());
    assert_eq!(d.children_rect(IntRect::new(1, 2, 3, 4)), IntRect::new(1, 2, 3, 4));
    assert_eq!(d.padded_extent(IntRect::new(0, 0, 30, 20)), None);
}

#[test]
fn textbox_event() {
    let e = TextBoxTriggeredEvent::new("abc".to_string(), true);
    assert_eq!(e, TextBoxTriggeredEvent { string: "abc".to_string(), selected: true });
}

#[test]
fn tile_counts() {
    assert_eq!(ui::repeatable_3x1_sprite::num_tiles(100, 16), 7);
    assert_eq!(ui::repeatable_3x1_sprite::num_tiles(96, 16), 6);
    assert_eq!(ui::repeatable_3x1_sprite::num_tiles(10, 16), 3);
    assert_eq!(ui::repeatable_3x1_sprite::num_tiles(0, 5), 3);
    assert_eq!(ui::repeatable_3x1_sprite::ceil_div_i32(7, 2), 4);
    let t = ui::repeatable_3x3_sprite::num_tiles(Vector2u::new(100, 40), Vector2i::new(16, 16));
    assert_eq!((t.x, t.y), (7, 3));
    // The count is cut to 16 bits.
    let t = ui::repeatable_3x3_sprite::num_tiles(Vector2u::new(200000, 65536 * 2 + 5), Vector2i::new(1, 1));
    assert_eq!((t.x, t.y), (3392, 5));
}

#[test]
fn element_tags_name_kinds() {
    let kind = ui::element_tags::element_kind;
    assert_eq!(kind("Button"), Some(ui::element_tags::ElementKind::Button));
    assert_eq!(kind("Grid"), Some(ui::element_tags::ElementKind::Grid));
    assert_eq!(kind("Empty"), Some(ui::element_tags::ElementKind::Empty));
    assert_eq!(kind("Text"), Some(ui::element_tags::ElementKind::Text));
    assert_eq!(kind("button"), None);
    assert_eq!(kind("TextBox"), None);
}
