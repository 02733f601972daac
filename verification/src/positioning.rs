//! Placing an element inside a surrounding rectangle.
//!
//! A `UIPosition` gives optional offsets from each side of the surrounding
//! rectangle. Along each axis:
//! - exactly one offset given: the element is placed that many pixels from
//!   that side ("by pixel");
//! - both or neither given: the element is placed proportionally, at
//!   `a / (a + b)` of the axis, or at the middle when both are absent or both
//!   zero ("by percent"). The proportional offset is computed in single
//!   precision floating point by the caller and handed in here.
use vstd::prelude::*;

use crate::geometry::{IntRect, Vector2i};
use crate::parsing::{
    find_char, find_char_from, lemma_find_char, lower_eq, lower_matches, parse_i32,
    parse_i32_spec, str_chars, trim, trim_bounds,
};

verus! {

/// Offsets of an element from the sides of the rectangle it is placed in.
#[derive(Clone, Copy, Debug, PartialEq, Eq, PartialOrd, Structural)]
pub struct UIPosition {
    pub top: Option<i32>,
    pub bottom: Option<i32>,
    pub left: Option<i32>,
    pub right: Option<i32>,
}

/// Why a position string could not be read.
#[derive(Clone, Copy, Debug, PartialEq, Eq, Structural)]
pub enum UIPositionParseError {
    /// A comma-separated entry is not of the form `side:amount`.
    MalformedTuple,
    /// An amount is not a decimal `i32`.
    InvalidAmount,
    /// A side is none of `t`, `b`, `l`, `r`.
    InvalidSide,
    /// A string without `:` is none of the position keywords.
    UnknownKeyword,
}

impl Default for UIPosition {
    fn default() -> (r: Self)
        ensures
            r == UIPosition::spec_center(),
    {
        UIPosition { top: None, bottom: None, left: None, right: None }
    }
}

/// Whether a value fits in `i32`.
pub open spec fn fits_i32(v: int) -> bool {
    i32::MIN <= v <= i32::MAX
}

/// `v / 2` rounded toward zero, as Rust's integer division does.
pub open spec fn half_toward_zero(v: int) -> int {
    if v >= 0 {
        v / 2
    } else {
        -((-v) / 2)
    }
}

/// Whether an axis is placed proportionally: both offsets given or neither.
pub open spec fn is_proportional(a: Option<i32>, b: Option<i32>) -> bool {
    a.is_some() == b.is_some()
}

/// The coordinate of an axis placed by pixel: `a` pixels after the start of
/// the axis, else `b` pixels before its end, else the start.
pub open spec fn by_pixel_spec(a: Option<i32>, b: Option<i32>, ra: i32, rb: i32) -> int {
    match a {
        Some(a) => ra + a,
        None => match b {
            Some(b) => (ra + rb) - b,
            None => ra as int,
        },
    }
}

/// The arithmetic of `by_pixel` stays within `i32`.
pub open spec fn by_pixel_fits(a: Option<i32>, b: Option<i32>, ra: i32, rb: i32) -> bool {
    match a {
        Some(a) => fits_i32(ra + a),
        None => match b {
            Some(b) => fits_i32(ra + rb) && fits_i32((ra + rb) - b),
            None => true,
        },
    }
}

/// The coordinate of one axis, given the offset that proportional placement yields.
pub open spec fn axis_spec(a: Option<i32>, b: Option<i32>, ra: i32, rb: i32, proportional_offset: i32) -> int {
    if is_proportional(a, b) {
        ra + proportional_offset
    } else {
        by_pixel_spec(a, b, ra, rb)
    }
}

/// The arithmetic of one axis stays within `i32`.
pub open spec fn axis_fits(a: Option<i32>, b: Option<i32>, ra: i32, rb: i32, proportional_offset: i32) -> bool {
    if is_proportional(a, b) {
        fits_i32(ra + proportional_offset)
    } else {
        by_pixel_fits(a, b, ra, rb)
    }
}

/// Where the element's corner goes along one axis, given the anchor point
/// `rc` of that axis and the element's extent `size`: centred on the anchor
/// when placed proportionally, ending at the anchor when placed from the far
/// side, starting at it when placed from the near side.
pub open spec fn corner_spec(near: Option<i32>, far: Option<i32>, rc: i32, size: i32) -> int {
    if is_proportional(near, far) {
        rc - half_toward_zero(size as int)
    } else if near.is_none() {
        rc - size
    } else {
        rc as int
    }
}

/// The weights `(a, b)` of proportional placement: both offsets when both
/// are given and not both zero, else `(1, 1)`, which centres the element.
pub open spec fn percent_weights_spec(a: Option<i32>, b: Option<i32>) -> (i32, i32) {
    match (a, b) {
        (Some(x), Some(y)) => if x == 0 && y == 0 {
            (1, 1)
        } else {
            (x, y)
        },
        _ => (1, 1),
    }
}

impl UIPosition {
    pub open spec fn spec_center() -> UIPosition {
        UIPosition { top: None, bottom: None, left: None, right: None }
    }

    /// Centred on both axes.
    pub fn center() -> (r: UIPosition)
        ensures
            r == UIPosition::spec_center(),
    {
        UIPosition { top: None, bottom: None, left: None, right: None }
    }

    /// At the left edge, centred vertically.
    pub fn start_horizontal() -> (r: UIPosition)
        ensures
            r == (UIPosition { top: None, bottom: None, left: Some(0), right: None }),
    {
        UIPosition { top: None, bottom: None, left: Some(0), right: None }
    }

    /// At the top edge, centred horizontally.
    pub fn start_vertical() -> (r: UIPosition)
        ensures
            r == (UIPosition { top: Some(0), bottom: None, left: None, right: None }),
    {
        UIPosition { top: Some(0), bottom: None, left: None, right: None }
    }

    /// At the right edge, centred vertically.
    pub fn end_horizontal() -> (r: UIPosition)
        ensures
            r == (UIPosition { top: None, bottom: None, left: None, right: Some(0) }),
    {
        UIPosition { top: None, bottom: None, left: None, right: Some(0) }
    }

    /// At the bottom edge, centred horizontally.
    pub fn end_vertical() -> (r: UIPosition)
        ensures
            r == (UIPosition { top: None, bottom: Some(0), left: None, right: None }),
    {
        UIPosition { top: None, bottom: Some(0), left: None, right: None }
    }

    /// The weights `(a, b)` of proportional placement on an axis with offsets
    /// `a` and `b`: the element goes at `a / (a + b)` of the axis. Both
    /// absent, or both zero, centres it.
    pub fn percent_weights(a: Option<i32>, b: Option<i32>) -> (r: (i32, i32))
        ensures
            r == percent_weights_spec(a, b),
    {
        match (a, b) {
            (Some(x), Some(y)) => if x == 0 && y == 0 {
                (1, 1)
            } else {
                (x, y)
            },
            _ => (1, 1),
        }
    }

    /// Places one axis by pixel (see `by_pixel_spec`).
    pub fn by_pixel(a: Option<i32>, b: Option<i32>, ra: i32, rb: i32) -> (r: i32)
        requires
            by_pixel_fits(a, b, ra, rb),
        ensures
            r == by_pixel_spec(a, b, ra, rb),
    {
        match a {
            Some(a) => ra + a,
            None => match b {
                Some(b) => (ra + rb) - b,
                None => ra,
            },
        }
    }

    /// The coordinate of one axis with near offset `a`, far offset `b`, axis
    /// start `ra` and axis length `rb`.
    pub fn axis(a: Option<i32>, b: Option<i32>, ra: i32, rb: i32, proportional_offset: i32) -> (r: i32)
        requires
            axis_fits(a, b, ra, rb, proportional_offset),
        ensures
            r == axis_spec(a, b, ra, rb, proportional_offset),
    {
        if a.is_some() == b.is_some() {
            UIPosition::by_pixel(Some(proportional_offset), b, ra, rb)
        } else {
            UIPosition::by_pixel(a, b, ra, rb)
        }
    }

    /// The arithmetic of `rcoords_with_offsets` stays within `i32`.
    pub open spec fn rcoords_fit(self, relative_rect: IntRect, proportional_offsets: Vector2i) -> bool {
        &&& axis_fits(self.left, self.right, relative_rect.left, relative_rect.width, proportional_offsets.x)
        &&& axis_fits(self.top, self.bottom, relative_rect.top, relative_rect.height, proportional_offsets.y)
    }

    pub open spec fn spec_rcoords(self, relative_rect: IntRect, proportional_offsets: Vector2i) -> Vector2i {
        Vector2i {
            x: axis_spec(self.left, self.right, relative_rect.left, relative_rect.width, proportional_offsets.x) as i32,
            y: axis_spec(self.top, self.bottom, relative_rect.top, relative_rect.height, proportional_offsets.y) as i32,
        }
    }

    /// The anchor point of this position inside `relative_rect`, where
    /// `proportional_offsets` holds the proportional offset of each axis.
    pub fn rcoords_with_offsets(&self, relative_rect: IntRect, proportional_offsets: Vector2i) -> (r: Vector2i)
        requires
            self.rcoords_fit(relative_rect, proportional_offsets),
        ensures
            r == self.spec_rcoords(relative_rect, proportional_offsets),
    {
        let y = UIPosition::axis(self.top, self.bottom, relative_rect.top, relative_rect.height, proportional_offsets.y);
        let x = UIPosition::axis(self.left, self.right, relative_rect.left, relative_rect.width, proportional_offsets.x);
        Vector2i { x, y }
    }

    /// The arithmetic of `center_from_rcoords` stays within `i32`.
    pub open spec fn center_fits(self, rcoord: Vector2i, size: Vector2i) -> bool {
        &&& fits_i32(corner_spec(self.left, self.right, rcoord.x, size.x))
        &&& fits_i32(corner_spec(self.top, self.bottom, rcoord.y, size.y))
    }

    pub open spec fn spec_center_from_rcoords(self, rcoord: Vector2i, size: Vector2i) -> Vector2i {
        Vector2i {
            x: corner_spec(self.left, self.right, rcoord.x, size.x) as i32,
            y: corner_spec(self.top, self.bottom, rcoord.y, size.y) as i32,
        }
    }

    /// The top-left corner of an element of extent `size` whose anchor point is `rcoord`.
    pub fn center_from_rcoords(&self, rcoord: Vector2i, size: Vector2i) -> (r: Vector2i)
        requires
            self.center_fits(rcoord, size),
        ensures
            r == self.spec_center_from_rcoords(rcoord, size),
    {
        let x = if self.left.is_some() == self.right.is_some() {
            rcoord.x - (size.x / 2)
        } else if self.left.is_none() {
            rcoord.x - size.x
        } else {
            rcoord.x
        };
        let y = if self.top.is_some() == self.bottom.is_some() {
            rcoord.y - (size.y / 2)
        } else if self.top.is_none() {
            rcoord.y - size.y
        } else {
            rcoord.y
        };
        Vector2i { x, y }
    }

    /// The rectangle of extent `size` whose anchor point is `rcoord`.
    pub fn center_with_size_from_rcoords(&self, rcoord: Vector2i, size: Vector2i) -> (r: IntRect)
        requires
            self.center_fits(rcoord, size),
        ensures
            r == IntRect::from_vecs_spec(self.spec_center_from_rcoords(rcoord, size), size),
    {
        IntRect::from_vecs(self.center_from_rcoords(rcoord, size), size)
    }

    /// The arithmetic of `padded_inner_rect` stays within `i32`.
    pub open spec fn padding_fits(self, r: IntRect) -> bool {
        let top = r.top + self.top.unwrap_or(0);
        let left = r.left + self.left.unwrap_or(0);
        let bottom = r.top + r.height - self.bottom.unwrap_or(0);
        let right = r.left + r.width - self.right.unwrap_or(0);
        &&& fits_i32(top) && fits_i32(left)
        &&& fits_i32(r.top + r.height) && fits_i32(bottom)
        &&& fits_i32(r.left + r.width) && fits_i32(right)
        &&& fits_i32(right - left) && fits_i32(bottom - top)
    }

    pub open spec fn spec_padded_inner_rect(self, r: IntRect) -> IntRect {
        let top = r.top + self.top.unwrap_or(0);
        let left = r.left + self.left.unwrap_or(0);
        let bottom = r.top + r.height - self.bottom.unwrap_or(0);
        let right = r.left + r.width - self.right.unwrap_or(0);
        IntRect { left: left as i32, top: top as i32, width: (right - left) as i32, height: (bottom - top) as i32 }
    }

    /// `relative_rect` shrunk by each offset on its side (an absent offset is zero).
    pub fn padded_inner_rect(&self, relative_rect: IntRect) -> (r: IntRect)
        requires
            self.padding_fits(relative_rect),
        ensures
            r == self.spec_padded_inner_rect(relative_rect),
    {
        let top = relative_rect.top + self.top.unwrap_or(0);
        let left = relative_rect.left + self.left.unwrap_or(0);
        let bottom = relative_rect.top + relative_rect.height - self.bottom.unwrap_or(0);
        let right = relative_rect.left + relative_rect.width - self.right.unwrap_or(0);
        IntRect::new(left, top, right - left, bottom - top)
    }

    /// Reads a position string; see `parse_position`.
    pub fn from_str(s: &str) -> (r: Result<UIPosition, UIPositionParseError>)
        ensures
            r == parse_position(s@),
    {
        let chars = str_chars(s);
        let cs = chars.as_slice();
        let colon = find_char_from(cs, ':', 0);
        if colon < cs.len() {
            parse_side_list(cs)
        } else {
            parse_keyword(cs)
        }
    }
}

impl std::str::FromStr for UIPosition {
    type Err = UIPositionParseError;

    fn from_str(s: &str) -> (r: Result<UIPosition, UIPositionParseError>)
        ensures
            r == parse_position(s@),
    {
        UIPosition::from_str(s)
    }
}

/// `p` with the side named by `side` (`t`, `b`, `l` or `r`, in either case) set to `amount`.
pub open spec fn set_side(p: UIPosition, side: Seq<char>, amount: i32) -> Result<UIPosition, UIPositionParseError> {
    if lower_eq(side, seq!['t']) {
        Ok(UIPosition { top: Some(amount), ..p })
    } else if lower_eq(side, seq!['b']) {
        Ok(UIPosition { bottom: Some(amount), ..p })
    } else if lower_eq(side, seq!['l']) {
        Ok(UIPosition { left: Some(amount), ..p })
    } else if lower_eq(side, seq!['r']) {
        Ok(UIPosition { right: Some(amount), ..p })
    } else {
        Err(UIPositionParseError::InvalidSide)
    }
}

/// Applies one `side:amount` entry to `p`. The entry holds exactly one `:`;
/// the side and the amount are trimmed of white space.
pub open spec fn apply_entry(entry: Seq<char>, p: UIPosition) -> Result<UIPosition, UIPositionParseError> {
    let k = find_char(entry, ':', 0);
    if k >= entry.len() || find_char(entry, ':', k + 1) < entry.len() {
        Err(UIPositionParseError::MalformedTuple)
    } else {
        match parse_i32_spec(trim(entry.subrange(k + 1, entry.len() as int))) {
            None => Err(UIPositionParseError::InvalidAmount),
            Some(v) => set_side(p, trim(entry.subrange(0, k)), v),
        }
    }
}

/// Applies the comma-separated entries of `s` from index `from` on to `p`,
/// left to right, stopping at the first bad entry.
pub open spec fn apply_entries(s: Seq<char>, from: int, p: UIPosition) -> Result<UIPosition, UIPositionParseError>
    decreases s.len() - from,
{
    if from < 0 || from > s.len() {
        Ok(p)
    } else {
        let j = find_char(s, ',', from);
        match apply_entry(s.subrange(from, j), p) {
            Err(e) => Err(e),
            Ok(q) => if j >= s.len() {
                Ok(q)
            } else {
                proof {
                    lemma_find_char(s, ',', from);
                }
                apply_entries(s, j + 1, q)
            },
        }
    }
}

/// The position that a keyword names: `start` (left), `end` (right), `top`,
/// `bottom` (each at offset 1) or `center`, in either case.
pub open spec fn keyword_position(s: Seq<char>) -> Result<UIPosition, UIPositionParseError> {
    if lower_eq(s, seq!['s', 't', 'a', 'r', 't']) {
        Ok(UIPosition { top: None, bottom: None, left: Some(1), right: None })
    } else if lower_eq(s, seq!['e', 'n', 'd']) {
        Ok(UIPosition { top: None, bottom: None, left: None, right: Some(1) })
    } else if lower_eq(s, seq!['t', 'o', 'p']) {
        Ok(UIPosition { top: Some(1), bottom: None, left: None, right: None })
    } else if lower_eq(s, seq!['b', 'o', 't', 't', 'o', 'm']) {
        Ok(UIPosition { top: None, bottom: Some(1), left: None, right: None })
    } else if lower_eq(s, seq!['c', 'e', 'n', 't', 'e', 'r']) {
        Ok(UIPosition::spec_center())
    } else {
        Err(UIPositionParseError::UnknownKeyword)
    }
}

/// The position that a string writes: a list of `side:amount` entries
/// (applied to the centred position) when it holds a `:`, a keyword otherwise.
pub open spec fn parse_position(s: Seq<char>) -> Result<UIPosition, UIPositionParseError> {
    if find_char(s, ':', 0) < s.len() {
        apply_entries(s, 0, UIPosition::spec_center())
    } else {
        keyword_position(s)
    }
}

fn word(w: &str) -> (v: Vec<char>)
    ensures
        v@ == w@,
{
    str_chars(w)
}

fn set_side_exec(p: UIPosition, s: &[char], lo: usize, hi: usize, amount: i32) -> (r: Result<UIPosition, UIPositionParseError>)
    requires
        lo <= hi <= s@.len(),
    ensures
        r == set_side(p, s@.subrange(lo as int, hi as int), amount),
{
    let t = vec!['t'];
    let b = vec!['b'];
    let l = vec!['l'];
    let r = vec!['r'];
    proof {
        assert(t@ == seq!['t']);
        assert(b@ == seq!['b']);
        assert(l@ == seq!['l']);
        assert(r@ == seq!['r']);
    }
    if lower_matches(s, lo, hi, t.as_slice()) {
        Ok(UIPosition { top: Some(amount), ..p })
    } else if lower_matches(s, lo, hi, b.as_slice()) {
        Ok(UIPosition { bottom: Some(amount), ..p })
    } else if lower_matches(s, lo, hi, l.as_slice()) {
        Ok(UIPosition { left: Some(amount), ..p })
    } else if lower_matches(s, lo, hi, r.as_slice()) {
        Ok(UIPosition { right: Some(amount), ..p })
    } else {
        Err(UIPositionParseError::InvalidSide)
    }
}

fn apply_entry_exec(entry: &[char], p: UIPosition) -> (r: Result<UIPosition, UIPositionParseError>)
    ensures
        r == apply_entry(entry@, p),
{
    let n = entry.len();
    let k = find_char_from(entry, ':', 0);
    if k >= n {
        return Err(UIPositionParseError::MalformedTuple);
    }
    let k2 = find_char_from(entry, ':', k + 1);
    if k2 < n {
        return Err(UIPositionParseError::MalformedTuple);
    }
    let (a0, a1) = trim_bounds(entry, k + 1, n);
    match parse_i32(entry, a0, a1) {
        None => Err(UIPositionParseError::InvalidAmount),
        Some(v) => {
            let (s0, s1) = trim_bounds(entry, 0, k);
            set_side_exec(p, entry, s0, s1, v)
        },
    }
}

fn parse_side_list(s: &[char]) -> (r: Result<UIPosition, UIPositionParseError>)
    ensures
        r == apply_entries(s@, 0, UIPosition::spec_center()),
{
    let n = s.len();
    let mut acc = UIPosition::center();
    let mut from: usize = 0;
    loop
        invariant
            n == s@.len(),
            from <= n,
            apply_entries(s@, 0, UIPosition::spec_center()) == apply_entries(s@, from as int, acc),
        decreases n - from,
    {
        let j = find_char_from(s, ',', from);
        proof {
            lemma_find_char(s@, ',', from as int);
        }
        let entry = vstd::slice::slice_subrange(s, from, j);
        match apply_entry_exec(entry, acc) {
            Err(e) => {
                return Err(e);
            },
            Ok(q) => {
                if j >= n {
                    return Ok(q);
                }
                acc = q;
                from = j + 1;
            },
        }
    }
}

fn parse_keyword(s: &[char]) -> (r: Result<UIPosition, UIPositionParseError>)
    ensures
        r == keyword_position(s@),
{
    let n = s.len();
    proof {
        assert(s@.subrange(0, n as int) =~= s@);
    }
    let start = word("start");
    let end = word("end");
    let top = word("top");
    let bottom = word("bottom");
    let center = word("center");
    proof {
        reveal_strlit("start");
        reveal_strlit("end");
        reveal_strlit("top");
        reveal_strlit("bottom");
        reveal_strlit("center");
    }
    if lower_matches(s, 0, n, start.as_slice()) {
        Ok(UIPosition { top: None, bottom: None, left: Some(1), right: None })
    } else if lower_matches(s, 0, n, end.as_slice()) {
        Ok(UIPosition { top: None, bottom: None, left: None, right: Some(1) })
    } else if lower_matches(s, 0, n, top.as_slice()) {
        Ok(UIPosition { top: Some(1), bottom: None, left: None, right: None })
    } else if lower_matches(s, 0, n, bottom.as_slice()) {
        Ok(UIPosition { top: None, bottom: Some(1), left: None, right: None })
    } else if lower_matches(s, 0, n, center.as_slice()) {
        Ok(UIPosition::center())
    } else {
        Err(UIPositionParseError::UnknownKeyword)
    }
}


/// An element placed by pixel from the near side of an axis starts that
/// many pixels after the start of the rectangle; placed from the far side,
/// it ends that many pixels before the rectangle's end.
pub proof fn lemma_pixel_placement_edges(p: UIPosition, relative_rect: IntRect, offsets: Vector2i, size: Vector2i)
    requires
        p.rcoords_fit(relative_rect, offsets),
        p.center_fits(p.spec_rcoords(relative_rect, offsets), size),
    ensures
        ({
            let corner = p.spec_center_from_rcoords(p.spec_rcoords(relative_rect, offsets), size);
            &&& (p.right is None ==> (p.left matches Some(l) ==> corner.x == relative_rect.left + l))
            &&& (p.left is None ==> (p.right matches Some(r) ==> corner.x + size.x == relative_rect.left
                + relative_rect.width - r))
            &&& (p.bottom is None ==> (p.top matches Some(t) ==> corner.y == relative_rect.top + t))
            &&& (p.top is None ==> (p.bottom matches Some(b) ==> corner.y + size.y == relative_rect.top
                + relative_rect.height - b))
        }),
{
}

/// Proportional placement puts the element's middle (rounded toward the
/// start) on the anchor: the anchor lies `size / 2` after the corner.
pub proof fn lemma_proportional_placement_centres(p: UIPosition, rcoord: Vector2i, size: Vector2i)
    requires
        p.center_fits(rcoord, size),
        is_proportional(p.left, p.right),
        is_proportional(p.top, p.bottom),
    ensures
        p.spec_center_from_rcoords(rcoord, size).x + half_toward_zero(size.x as int) == rcoord.x,
        p.spec_center_from_rcoords(rcoord, size).y + half_toward_zero(size.y as int) == rcoord.y,
{
}

/// Without offsets, the padded inner rectangle is the rectangle itself; an
/// offset on a side moves that side inward by the offset.
pub proof fn lemma_padded_inner_rect_edges(p: UIPosition, r: IntRect)
    requires
        p.padding_fits(r),
    ensures
        ({
            let inner = p.spec_padded_inner_rect(r);
            &&& inner.left == r.left + p.left.unwrap_or(0)
            &&& inner.top == r.top + p.top.unwrap_or(0)
            &&& inner.left + inner.width == r.left + r.width - p.right.unwrap_or(0)
            &&& inner.top + inner.height == r.top + r.height - p.bottom.unwrap_or(0)
            &&& (p == UIPosition::spec_center() ==> inner == r)
        }),
{
}

} // verus!
