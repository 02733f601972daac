//! Integer points and rectangles in screen coordinates.
//!
//! `Rect::contains` follows the half-open rule: a rectangle covers the
//! points from its left/top edge up to, but not including, its right/bottom
//! edge, and a negative width or height extends the rectangle the other way.
use vstd::prelude::*;

verus! {

/// A point or an extent in integer pixels.
#[derive(Clone, Copy, Debug, PartialEq, Eq, Structural)]
pub struct Vector2i {
    pub x: i32,
    pub y: i32,
}

/// An extent in unsigned pixels.
#[derive(Clone, Copy, Debug, PartialEq, Eq, Structural)]
pub struct Vector2u {
    pub x: u32,
    pub y: u32,
}

/// A pair of 16-bit unsigned values, used for page offsets, page sizes and
/// slider fractions (where `u16::MAX` stands for the whole range).
#[derive(Clone, Copy, Debug, PartialEq, Eq, Structural)]
pub struct Vector2u16 {
    pub x: u16,
    pub y: u16,
}

impl Vector2i {
    pub fn new(x: i32, y: i32) -> (r: Self)
        ensures
            r.x == x,
            r.y == y,
    {
        Vector2i { x, y }
    }
}

impl Vector2u {
    pub fn new(x: u32, y: u32) -> (r: Self)
        ensures
            r.x == x,
            r.y == y,
    {
        Vector2u { x, y }
    }
}

impl Vector2u16 {
    pub fn new(x: u16, y: u16) -> (r: Self)
        ensures
            r.x == x,
            r.y == y,
    {
        Vector2u16 { x, y }
    }
}

/// An axis-aligned rectangle given by its top-left corner and its size.
#[derive(Clone, Copy, Debug, PartialEq, Eq, Structural)]
pub struct IntRect {
    pub left: i32,
    pub top: i32,
    pub width: i32,
    pub height: i32,
}

/// The smaller of two integers.
pub open spec fn min_int(a: int, b: int) -> int {
    if a < b {
        a
    } else {
        b
    }
}

/// The larger of two integers.
pub open spec fn max_int(a: int, b: int) -> int {
    if a < b {
        b
    } else {
        a
    }
}

impl IntRect {
    pub fn new(left: i32, top: i32, width: i32, height: i32) -> (r: Self)
        ensures
            r == (IntRect { left, top, width, height }),
    {
        IntRect { left, top, width, height }
    }

    pub open spec fn from_vecs_spec(pos: Vector2i, size: Vector2i) -> IntRect {
        IntRect { left: pos.x, top: pos.y, width: size.x, height: size.y }
    }

    /// The rectangle whose corner is `pos` and whose size is `size`.
    pub fn from_vecs(pos: Vector2i, size: Vector2i) -> (r: Self)
        ensures
            r == IntRect::from_vecs_spec(pos, size),
    {
        IntRect { left: pos.x, top: pos.y, width: size.x, height: size.y }
    }

    /// The top-left corner.
    pub fn position(&self) -> (r: Vector2i)
        ensures
            r == (Vector2i { x: self.left, y: self.top }),
    {
        Vector2i { x: self.left, y: self.top }
    }

    /// The width and height.
    pub fn size(&self) -> (r: Vector2i)
        ensures
            r == (Vector2i { x: self.width, y: self.height }),
    {
        Vector2i { x: self.width, y: self.height }
    }

    /// The far edges fit in `i32`, so the rectangle can be tested against points.
    pub open spec fn edges_fit(self) -> bool {
        &&& i32::MIN <= self.left + self.width <= i32::MAX
        &&& i32::MIN <= self.top + self.height <= i32::MAX
    }

    /// Whether the point lies in the half-open area covered by the rectangle.
    pub open spec fn covers(self, p: Vector2i) -> bool {
        let x0 = min_int(self.left as int, self.left + self.width);
        let x1 = max_int(self.left as int, self.left + self.width);
        let y0 = min_int(self.top as int, self.top + self.height);
        let y1 = max_int(self.top as int, self.top + self.height);
        x0 <= p.x < x1 && y0 <= p.y < y1
    }

    /// Whether `point` lies inside the rectangle.
    pub fn contains(&self, point: Vector2i) -> (r: bool)
        requires
            self.edges_fit(),
        ensures
            r == self.covers(point),
    {
        let right = self.left + self.width;
        let bottom = self.top + self.height;
        let (min_x, max_x) = if self.left < right {
            (self.left, right)
        } else {
            (right, self.left)
        };
        let (min_y, max_y) = if self.top < bottom {
            (self.top, bottom)
        } else {
            (bottom, self.top)
        };
        point.x >= min_x && point.x < max_x && point.y >= min_y && point.y < max_y
    }
}

} // verus!
