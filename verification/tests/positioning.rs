use ui::geometry::{IntRect, Vector2i};
use ui::positioning::{UIPosition, UIPositionParseError};

/// The offset along an axis that proportional placement gives, computed in
/// single precision the way the renderer does.
fn proportional_offset(a: Option<i32>, b: Option<i32>, rb: i32) -> i32 {
    let (ca, cb) = UIPosition::percent_weights(a, b);
    let percent = ca as f32 / (ca as f32 + cb as f32);
    (rb as f32 * percent) as i32
}

fn rcoords(p: &UIPosition, r: IntRect) -> Vector2i {
    let offsets = Vector2i::new(
        proportional_offset(p.left, p.right, r.width),
        proportional_offset(p.top, p.bottom, r.height),
    );
    p.rcoords_with_offsets(r, offsets)
}

fn center_of(p: &UIPosition, r: IntRect, size: Vector2i) -> Vector2i {
    p.center_from_rcoords(rcoords(p, r), size)
}

fn pos(top: Option<i32>, bottom: Option<i32>, left: Option<i32>, right: Option<i32>) -> UIPosition {
    UIPosition { top, bottom, left, right }
}

fn rect(top: i32, left: i32, width: i32, height: i32) -> IntRect {
    IntRect { top, left, width, height }
}

#[test]
fn rcoords_by_pixel_right() {
    let c = rcoords(&pos(Some(25), None, Some(25), None), rect(0, 0, 100, 100));
    assert_eq!(c.x, 25);
    assert_eq!(c.y, 25);
    let c = rcoords(&pos(None, Some(25), None, Some(25)), rect(0, 0, 100, 100));
    assert_eq!(c.x, 75);
    assert_eq!(c.y, 75);
    let c = rcoords(&pos(Some(1), Some(3), Some(1), Some(3)), rect(0, 0, 100, 100));
    assert_eq!(c.y, 25);
    assert_eq!(c.x, 25);
    let c = rcoords(&pos(Some(3), Some(1), Some(3), Some(1)), rect(0, 0, 100, 100));
    assert_eq!(c.y, 75);
    assert_eq!(c.x, 75);
    let c = rcoords(&pos(None, None, None, None), rect(0, 0, 100, 100));
    assert_eq!(c.x, 50);
    assert_eq!(c.y, 50);
    let c = rcoords(&pos(Some(0), Some(0), Some(0), Some(0)), rect(0, 0, 100, 100));
    assert_eq!(c.x, 50);
    assert_eq!(c.y, 50);
    let c = rcoords(&pos(Some(1), Some(0), Some(1), Some(0)), rect(0, 0, 100, 100));
    assert_eq!(c.x, 100);
    assert_eq!(c.y, 100);
    let c = rcoords(&pos(Some(0), Some(1), Some(0), Some(1)), rect(0, 0, 100, 100));
    assert_eq!(c.x, 0);
    assert_eq!(c.y, 0);
    let c = rcoords(&pos(Some(50), None, Some(50), None), rect(100, 100, 100, 100));
    assert_eq!(c.x, 150);
    assert_eq!(c.y, 150);
    let c = rcoords(&pos(None, Some(50), None, Some(50)), rect(100, 100, 100, 100));
    assert_eq!(c.x, 150);
    assert_eq!(c.y, 150);
    let c = rcoords(&pos(Some(50), Some(50), Some(50), Some(50)), rect(100, 100, 100, 100));
    assert_eq!(c.x, 150);
    assert_eq!(c.y, 150);
    let c = rcoords(&pos(None, None, None, None), rect(100, 100, 100, 100));
    assert_eq!(c.x, 150);
    assert_eq!(c.y, 150);
    let c = rcoords(&pos(Some(0), Some(1), Some(0), Some(1)), rect(100, 100, 100, 100));
    assert_eq!(c.x, 100);
    assert_eq!(c.y, 100);
    let c = rcoords(&pos(Some(1), Some(0), Some(1), Some(0)), rect(100, 100, 100, 100));
    assert_eq!(c.x, 200);
    assert_eq!(c.y, 200);
}

#[test]
fn center() {
    let c = center_of(&pos(None, None, None, None), rect(0, 0, 100, 100), Vector2i { x: 50, y: 50 });
    assert_eq!(c.x, 25);
    assert_eq!(c.y, 25);
    let c = center_of(&pos(None, None, None, None), rect(100, 100, 100, 100), Vector2i { x: 50, y: 50 });
    assert_eq!(c.x, 125);
    assert_eq!(c.y, 125);
    let c = center_of(
        &pos(Some(10), Some(3), Some(22), Some(124)),
        rect(100, 100, 100, 100),
        Vector2i { x: 50, y: 50 },
    );
    assert_eq!(c.x, 90);
    assert_eq!(c.y, 151);
    let c = center_of(&pos(None, None, None, None), rect(100, 0, 100, 100), Vector2i { x: 150, y: 10 });
    assert_eq!(c.x, -25);
    assert_eq!(c.y, 145);
    let c = center_of(
        &pos(None, Some(15), None, Some(15)),
        rect(0, 0, 1000, 1000),
        Vector2i { x: 100, y: 100 },
    );
    assert_eq!(c.x, 885);
    assert_eq!(c.y, 885);
}

#[test]
fn from_str() {
    let test_str = "t:1,b:2,l:3,r:4";
    assert_eq!(
        UIPosition::from_str(test_str),
        Ok(UIPosition { top: Some(1), bottom: Some(2), left: Some(3), right: Some(4) })
    );

    let test_str = "t:1,l:3,r:4";
    assert_eq!(
        UIPosition::from_str(test_str),
        Ok(UIPosition { top: Some(1), bottom: None, left: Some(3), right: Some(4) })
    );

    let test_str = "a:1,b:2,c:3,d:4";
    assert!(UIPosition::from_str(test_str).is_err());

    let test_str = "center";
    assert!(UIPosition::from_str(test_str).is_ok());

    let test_str = "no string should fit this from_str";
    assert!(UIPosition::from_str(test_str).is_err());

    let test_str = "start";
    assert_eq!(
        UIPosition::from_str(test_str),
        Ok(UIPosition { top: None, bottom: None, left: Some(1), right: None })
    );

    let test_str = "end";
    assert_eq!(
        UIPosition::from_str(test_str),
        Ok(UIPosition { top: None, bottom: None, left: None, right: Some(1) })
    );

    let test_str = "top";
    assert_eq!(
        UIPosition::from_str(test_str),
        Ok(UIPosition { top: Some(1), bottom: None, left: None, right: None })
    );

    let test_str = "bottom";
    assert_eq!(
        UIPosition::from_str(test_str),
        Ok(UIPosition { top: None, bottom: Some(1), left: None, right: None })
    );
}

#[test]
fn from_str_errors_and_details() {
    assert_eq!(UIPosition::from_str("t:1,x:2"), Err(UIPositionParseError::InvalidSide));
    assert_eq!(UIPosition::from_str("t:one"), Err(UIPositionParseError::InvalidAmount));
    assert_eq!(UIPosition::from_str("t:1:2"), Err(UIPositionParseError::MalformedTuple));
    assert_eq!(UIPosition::from_str("t:1,,b:2"), Err(UIPositionParseError::MalformedTuple));
    assert_eq!(UIPosition::from_str("middle"), Err(UIPositionParseError::UnknownKeyword));
    assert_eq!(
        UIPosition::from_str("T: -5, r : +7"),
        Ok(UIPosition { top: Some(-5), bottom: None, left: None, right: Some(7) })
    );
    assert_eq!(
        UIPosition::from_str("t:1,t:2"),
        Ok(UIPosition { top: Some(2), bottom: None, left: None, right: None })
    );
    assert_eq!(UIPosition::from_str("CENTER"), Ok(UIPosition::center()));
    assert_eq!(
        UIPosition::from_str("l:-2147483648"),
        Ok(UIPosition { top: None, bottom: None, left: Some(i32::MIN), right: None })
    );
    assert_eq!(UIPosition::from_str("l:2147483648"), Err(UIPositionParseError::InvalidAmount));
    assert_eq!(UIPosition::from_str("l:-"), Err(UIPositionParseError::InvalidAmount));
}

#[test]
fn by_pixel_and_weights() {
    assert_eq!(UIPosition::by_pixel(Some(5), Some(7), 10, 100), 15);
    assert_eq!(UIPosition::by_pixel(None, Some(7), 10, 100), 103);
    assert_eq!(UIPosition::by_pixel(None, None, 10, 100), 10);
    assert_eq!(UIPosition::percent_weights(None, None), (1, 1));
    assert_eq!(UIPosition::percent_weights(Some(0), Some(0)), (1, 1));
    assert_eq!(UIPosition::percent_weights(Some(2), Some(3)), (2, 3));
    assert_eq!(UIPosition::axis(Some(3), None, 10, 100, 999), 13);
    assert_eq!(UIPosition::axis(Some(3), Some(1), 10, 100, 75), 85);
}

#[test]
fn padded_inner_rect() {
    let p = pos(Some(5), Some(5), Some(10), Some(10));
    assert_eq!(p.padded_inner_rect(rect(0, 0, 100, 50)), rect(5, 10, 80, 40));
    let p = pos(None, Some(5), Some(10), None);
    assert_eq!(p.padded_inner_rect(rect(10, 20, 100, 50)), rect(10, 30, 90, 45));
}

#[test]
fn center_with_size_rect() {
    let p = pos(None, Some(15), None, Some(15));
    let rc = Vector2i::new(985, 985);
    assert_eq!(
        p.center_with_size_from_rcoords(rc, Vector2i::new(100, 100)),
        rect(885, 885, 100, 100)
    );
    // Odd negative sizes round toward zero.
    let c = UIPosition::center().center_from_rcoords(Vector2i::new(0, 0), Vector2i::new(-5, 5));
    assert_eq!(c, Vector2i::new(2, -2));
}

#[test]
fn pixel_placement_edges() {
    let r = rect(0, 0, 100, 50);
    let size = Vector2i::new(20, 10);
    let c = center_of(&pos(Some(5), None, Some(10), None), r, size);
    assert_eq!((c.x, c.y), (10, 5));
    let c = center_of(&pos(None, Some(5), None, Some(10)), r, size);
    assert_eq!((c.x + size.x, c.y + size.y), (90, 45));
    let c = center_of(&pos(None, None, None, None), r, size);
    assert_eq!((c.x + size.x / 2, c.y + size.y / 2), (50, 25));
}
