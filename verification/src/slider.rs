//! Slider logic that does not depend on the slider's value type: turning the
//! cursor into a position along the slider, and the press-and-hold timer of
//! the increment and decrement buttons.
use vstd::prelude::*;

use crate::geometry::{IntRect, Vector2i, Vector2u16};
use crate::listbox::elapsed;
use crate::mouse_ui_states::UIMouseStates;
use crate::positioning::{fits_i32, percent_weights_spec, UIPosition};

verus! {

/// `a / b` rounded toward zero, as Rust's integer division does.
pub open spec fn div_toward_zero(a: int, b: int) -> int {
    if a >= 0 {
        if b > 0 {
            a / b
        } else {
            -(a / (-b))
        }
    } else {
        if b > 0 {
            -((-a) / b)
        } else {
            (-a) / (-b)
        }
    }
}

/// `a / b` as Rust computes it for `i32`, rounding toward zero.
pub fn div_trunc(a: i32, b: i32) -> (r: i32)
    requires
        b != 0,
        !(a == i32::MIN && b == -1),
    ensures
        r == div_toward_zero(a as int, b as int),
{
    let x: i64 = a as i64;
    let d: i64 = b as i64;
    let q: i64 = if x >= 0 {
        if d > 0 {
            x / d
        } else {
            -(x / (-d))
        }
    } else {
        if d > 0 {
            -((-x) / d)
        } else {
            (-x) / (-d)
        }
    };
    proof {
        let ax: int = if x >= 0 { x as int } else { -(x as int) };
        let ad: int = if d > 0 { d as int } else { -(d as int) };
        assert(0 <= ax / ad <= ax) by (nonlinear_arith)
            requires
                ax >= 0,
                ad >= 1,
        {
        }
        if ad == 1 {
            assert(ax / ad == ax) by (nonlinear_arith)
                requires
                    ad == 1,
            {
            }
        } else {
            assert(ax / ad <= ax / 2) by (nonlinear_arith)
                requires
                    ax >= 0,
                    ad >= 2,
            {
            }
        }
    }
    q as i32
}

/// `v` limited to `0..=size` (checking the upper limit first).
pub open spec fn clamp_to_extent(v: int, size: int) -> int {
    if v > size {
        size
    } else if v < 0 {
        0
    } else {
        v
    }
}

/// The cursor's offset from the slider's corner, limited to the slider.
pub open spec fn slider_offset(cursor: Vector2i, slider: IntRect) -> (int, int) {
    (
        clamp_to_extent(cursor.x - slider.left, slider.width as int),
        clamp_to_extent(cursor.y - slider.top, slider.height as int),
    )
}

/// The arithmetic of `slider_fraction_from_cursor` stays within `i32`.
pub open spec fn slider_fraction_fits(cursor: Vector2i, slider: IntRect) -> bool {
    let (ox, oy) = slider_offset(cursor, slider);
    &&& fits_i32(cursor.x - slider.left)
    &&& fits_i32(cursor.y - slider.top)
    &&& slider.width != 0
    &&& slider.height != 0
    &&& fits_i32(ox * 65535)
    &&& fits_i32(oy * 65535)
}

/// The position of the cursor along the slider as a fraction of
/// `u16::MAX` on each axis: the offset from the slider's corner, limited to
/// the slider, times `u16::MAX`, divided by the slider's extent, rounded
/// toward zero and truncated to 16 bits.
pub open spec fn spec_slider_fraction(cursor: Vector2i, slider: IntRect) -> Vector2u16 {
    let (ox, oy) = slider_offset(cursor, slider);
    Vector2u16 {
        x: div_toward_zero(ox * 65535, slider.width as int) as u16,
        y: div_toward_zero(oy * 65535, slider.height as int) as u16,
    }
}

pub fn slider_fraction_from_cursor(cursor: Vector2i, slider: IntRect) -> (r: Vector2u16)
    requires
        slider_fraction_fits(cursor, slider),
    ensures
        r == spec_slider_fraction(cursor, slider),
{
    let rx = cursor.x - slider.left;
    let ry = cursor.y - slider.top;
    let ox = if rx > slider.width {
        slider.width
    } else if rx < 0 {
        0
    } else {
        rx
    };
    let oy = if ry > slider.height {
        slider.height
    } else if ry < 0 {
        0
    } else {
        ry
    };
    let px: i32 = ox * 65535;
    let py: i32 = oy * 65535;
    let qx: i32 = div_trunc(px, slider.width);
    let qy: i32 = div_trunc(py, slider.height);
    Vector2u16 { x: qx as u16, y: qy as u16 }
}


/// The position that puts an element at `fraction / u16::MAX` of the
/// horizontal axis (both horizontal offsets given, as weights), keeping the
/// vertical offsets.
pub open spec fn spec_fraction_position(top: Option<i32>, bottom: Option<i32>, fraction: u16) -> UIPosition {
    UIPosition { top, bottom, left: Some(fraction as i32), right: Some((65535 - fraction) as i32) }
}

pub fn fraction_position(top: Option<i32>, bottom: Option<i32>, fraction: u16) -> (r: UIPosition)
    ensures
        r == spec_fraction_position(top, bottom, fraction),
{
    UIPosition { top, bottom, left: Some(fraction as i32), right: Some((65535 - fraction) as i32) }
}

/// The position that puts an element at the given fractions (of
/// `u16::MAX`) of both axes.
pub fn fraction_position_2d(fraction: Vector2u16) -> (r: UIPosition)
    ensures
        r == (UIPosition {
            top: Some(fraction.y as i32),
            bottom: Some((65535 - fraction.y) as i32),
            left: Some(fraction.x as i32),
            right: Some((65535 - fraction.x) as i32),
        }),
{
    UIPosition {
        top: Some(fraction.y as i32),
        bottom: Some((65535 - fraction.y) as i32),
        left: Some(fraction.x as i32),
        right: Some((65535 - fraction.x) as i32),
    }
}

/// A fraction position places the element proportionally with weights
/// `fraction` and `u16::MAX - fraction`, which add up to `u16::MAX`.
pub proof fn lemma_fraction_position_weights(top: Option<i32>, bottom: Option<i32>, fraction: u16)
    ensures
        percent_weights_spec(
            spec_fraction_position(top, bottom, fraction).left,
            spec_fraction_position(top, bottom, fraction).right,
        ) == (fraction as i32, (65535 - fraction) as i32),
        percent_weights_spec(
            spec_fraction_position(top, bottom, fraction).left,
            spec_fraction_position(top, bottom, fraction).right,
        ).0 + percent_weights_spec(
            spec_fraction_position(top, bottom, fraction).left,
            spec_fraction_position(top, bottom, fraction).right,
        ).1 == 65535,
{
}

/// The slider fraction of a hue in degrees: `hue * u16::MAX / 360`, rounded down.
pub fn hue_fraction(hue: u16) -> (r: u16)
    requires
        hue <= 360,
    ensures
        r == (hue as int * 65535) / 360,
{
    let v: u32 = (hue as u32) * 65535 / 360;
    proof {
        assert((hue as int * 65535) / 360 <= 65535) by (nonlinear_arith)
            requires
                hue <= 360,
        {
        }
    }
    v as u16
}

/// The number of colour bands of a hue picker.
pub const NUM_OF_QUADS: u8 = 6;

/// The width of each colour band of a hue picker over a rectangle of width `w`.
pub open spec fn hue_band_width(w: i32) -> int {
    div_toward_zero(w as int, NUM_OF_QUADS as int)
}

/// The arithmetic of `hue_quad_rects` stays within `i32`.
pub open spec fn hue_quads_fit(bounds: IntRect) -> bool {
    forall|k: int| 0 <= k < 6 ==> #[trigger] fits_i32(k * hue_band_width(bounds.width) + bounds.left)
}

/// The rectangle of colour band `k` of a hue picker over `bounds`: the
/// bands split the width into six equal parts (rounded toward zero), left to right.
pub open spec fn hue_quad_rect(bounds: IntRect, k: int) -> IntRect {
    IntRect {
        left: (k * hue_band_width(bounds.width) + bounds.left) as i32,
        top: bounds.top,
        width: hue_band_width(bounds.width) as i32,
        height: bounds.height,
    }
}

/// The rectangles of the six colour bands of a hue picker over `bounds`.
pub fn hue_quad_rects(bounds: IntRect) -> (r: Vec<IntRect>)
    requires
        hue_quads_fit(bounds),
    ensures
        r@.len() == 6,
        forall|k: int| 0 <= k < 6 ==> #[trigger] r@[k] == hue_quad_rect(bounds, k),
{
    let w = div_trunc(bounds.width, NUM_OF_QUADS as i32);
    let mut r: Vec<IntRect> = Vec::new();
    let mut k: i32 = 0;
    while k < 6
        invariant
            0 <= k <= 6,
            w == hue_band_width(bounds.width),
            hue_quads_fit(bounds),
            r@.len() == k,
            forall|j: int| 0 <= j < k ==> #[trigger] r@[j] == hue_quad_rect(bounds, j),
        decreases 6 - k,
    {
        proof {
            assert(fits_i32(k * hue_band_width(bounds.width) + bounds.left));
            assert(-0x1555_5556 <= w <= 0x1555_5555) by (nonlinear_arith)
                requires
                    w == div_toward_zero(bounds.width as int, 6),
            {
            }
            assert(-0x8000_0000 <= k * w <= 0x7fff_ffff) by (nonlinear_arith)
                requires
                    0 <= k < 6,
                    -0x1555_5556 <= w <= 0x1555_5555,
            {
            }
        }
        r.push(IntRect::new(k * w + bounds.left, bounds.top, w, bounds.height));
        k = k + 1;
    }
    r
}

/// Which of the increment and decrement buttons is held, with when it was
/// pressed and when the value last changed because of it.
#[derive(Clone, Copy, Debug, PartialEq, Eq, Structural)]
pub enum IncrementDecrementClickState {
    Increment { pressed_at: u64, last_update_at: u64 },
    Decrement { pressed_at: u64, last_update_at: u64 },
    Idle,
}

impl IncrementDecrementClickState {
    /// A held button repeats once it has been held longer than
    /// `time_between_bind_pressed` and the last repeat is older than
    /// `time_between_updates`.
    pub open spec fn spec_is_update_needed(self, now: u64, time_between_bind_pressed: u64, time_between_updates: u64) -> bool {
        match self {
            IncrementDecrementClickState::Increment { pressed_at, last_update_at } => elapsed(
                now,
                pressed_at,
            ) > time_between_bind_pressed && elapsed(now, last_update_at) > time_between_updates,
            IncrementDecrementClickState::Decrement { pressed_at, last_update_at } => elapsed(
                now,
                pressed_at,
            ) > time_between_bind_pressed && elapsed(now, last_update_at) > time_between_updates,
            IncrementDecrementClickState::Idle => false,
        }
    }

    pub fn is_update_needed(&self, now: u64, time_between_bind_pressed: u64, time_between_updates: u64) -> (r: bool)
        ensures
            r == self.spec_is_update_needed(now, time_between_bind_pressed, time_between_updates),
    {
        match *self {
            IncrementDecrementClickState::Increment { pressed_at, last_update_at } => now.saturating_sub(
                pressed_at,
            ) > time_between_bind_pressed && now.saturating_sub(last_update_at)
                > time_between_updates,
            IncrementDecrementClickState::Decrement { pressed_at, last_update_at } => now.saturating_sub(
                pressed_at,
            ) > time_between_bind_pressed && now.saturating_sub(last_update_at)
                > time_between_updates,
            IncrementDecrementClickState::Idle => false,
        }
    }

    /// Records a repeat at `now`.
    pub fn increment_last_update_instant(&mut self, now: u64)
        ensures
            *final(self) == (match *old(self) {
                IncrementDecrementClickState::Increment { pressed_at, .. } => IncrementDecrementClickState::Increment {
                    pressed_at,
                    last_update_at: now,
                },
                IncrementDecrementClickState::Decrement { pressed_at, .. } => IncrementDecrementClickState::Decrement {
                    pressed_at,
                    last_update_at: now,
                },
                IncrementDecrementClickState::Idle => IncrementDecrementClickState::Idle,
            }),
    {
        *self = match *self {
            IncrementDecrementClickState::Increment { pressed_at, .. } => IncrementDecrementClickState::Increment {
                pressed_at,
                last_update_at: now,
            },
            IncrementDecrementClickState::Decrement { pressed_at, .. } => IncrementDecrementClickState::Decrement {
                pressed_at,
                last_update_at: now,
            },
            IncrementDecrementClickState::Idle => IncrementDecrementClickState::Idle,
        }
    }

    /// The select bind went down: a clicked increment button starts its
    /// timer, and a clicked decrement button starts its own (and wins).
    pub fn on_bind_pressed(&mut self, increment: UIMouseStates, decrement: UIMouseStates, now: u64)
        ensures
            *final(self) == (if decrement == UIMouseStates::Click {
                IncrementDecrementClickState::Decrement { pressed_at: now, last_update_at: now }
            } else if increment == UIMouseStates::Click {
                IncrementDecrementClickState::Increment { pressed_at: now, last_update_at: now }
            } else {
                *old(self)
            }),
    {
        if increment == UIMouseStates::Click {
            *self = IncrementDecrementClickState::Increment { pressed_at: now, last_update_at: now };
        }
        if decrement == UIMouseStates::Click {
            *self = IncrementDecrementClickState::Decrement { pressed_at: now, last_update_at: now };
        }
    }

    /// The select bind went up: the timer stops.
    pub fn on_bind_released(&mut self)
        ensures
            *final(self) == IncrementDecrementClickState::Idle,
    {
        *self = IncrementDecrementClickState::Idle;
    }

    /// The mouse moved: dragging onto a clicked button while no timer runs
    /// starts its timer (increment first); hovering neither button stops it.
    pub fn on_mouse_moved(&mut self, increment: UIMouseStates, decrement: UIMouseStates, now: u64)
        ensures
            *final(self) == (if *old(self) == IncrementDecrementClickState::Idle
                && increment.spec_is_hover() && increment == UIMouseStates::Click {
                IncrementDecrementClickState::Increment { pressed_at: now, last_update_at: now }
            } else if *old(self) == IncrementDecrementClickState::Idle && decrement.spec_is_hover()
                && decrement == UIMouseStates::Click {
                IncrementDecrementClickState::Decrement { pressed_at: now, last_update_at: now }
            } else if !increment.spec_is_hover() && !decrement.spec_is_hover() {
                IncrementDecrementClickState::Idle
            } else {
                *old(self)
            }),
    {
        let idle = *self == IncrementDecrementClickState::Idle;
        if idle && increment.is_hover() && increment == UIMouseStates::Click {
            *self = IncrementDecrementClickState::Increment { pressed_at: now, last_update_at: now };
        } else if idle && decrement.is_hover() && decrement == UIMouseStates::Click {
            *self = IncrementDecrementClickState::Decrement { pressed_at: now, last_update_at: now };
        } else if !increment.is_hover() && !decrement.is_hover() {
            *self = IncrementDecrementClickState::Idle;
        }
    }
}

/// The fraction lies in `0..=u16::MAX` without wrapping when the slider has
/// a positive extent: the ends of the slider are 0 and `u16::MAX`.
pub proof fn lemma_slider_fraction_ends(cursor: Vector2i, slider: IntRect)
    requires
        slider_fraction_fits(cursor, slider),
        slider.width > 0,
    ensures
        0 <= div_toward_zero(slider_offset(cursor, slider).0 * 65535, slider.width as int) <= 65535,
        cursor.x <= slider.left ==> spec_slider_fraction(cursor, slider).x == 0,
        cursor.x >= slider.left + slider.width ==> spec_slider_fraction(cursor, slider).x == 65535,
{
    let ox = slider_offset(cursor, slider).0;
    let w = slider.width as int;
    assert(0 <= ox <= w);
    assert(0 <= (ox * 65535) / w <= 65535) by (nonlinear_arith)
        requires
            0 <= ox <= w,
            w > 0,
    {
        assert(ox * 65535 <= w * 65535);
    }
    if cursor.x >= slider.left + slider.width {
        assert(ox == w);
        assert((w * 65535) / w == 65535) by (nonlinear_arith)
            requires
                w > 0,
        {
        }
    }
}


/// The vertical fraction depends only on the cursor's row and the slider's
/// top and height: it is 0 at or above the slider's top, `u16::MAX` at or
/// below its bottom, and `(cursor.y - top) * u16::MAX / height` in between.
/// The horizontal fraction likewise depends only on the cursor's column and
/// the slider's left and width.
pub proof fn lemma_slider_fraction_axes(c1: Vector2i, c2: Vector2i, s1: IntRect, s2: IntRect)
    requires
        s1.height > 0,
        s1.width > 0,
    ensures
        c1.y == c2.y && s1.top == s2.top && s1.height == s2.height ==> spec_slider_fraction(c1, s1).y
            == spec_slider_fraction(c2, s2).y,
        c1.x == c2.x && s1.left == s2.left && s1.width == s2.width ==> spec_slider_fraction(c1, s1).x
            == spec_slider_fraction(c2, s2).x,
        c1.y <= s1.top ==> spec_slider_fraction(c1, s1).y == 0,
        c1.y >= s1.top + s1.height ==> spec_slider_fraction(c1, s1).y == 65535,
        s1.top < c1.y < s1.top + s1.height ==> spec_slider_fraction(c1, s1).y == (c1.y - s1.top) * 65535
            / (s1.height as int),
        c1.x <= s1.left ==> spec_slider_fraction(c1, s1).x == 0,
        c1.x >= s1.left + s1.width ==> spec_slider_fraction(c1, s1).x == 65535,
        s1.left < c1.x < s1.left + s1.width ==> spec_slider_fraction(c1, s1).x == (c1.x - s1.left) * 65535
            / (s1.width as int),
{
    let oy = slider_offset(c1, s1).1;
    let h = s1.height as int;
    assert(0 <= oy <= h);
    assert(0 <= (oy * 65535) / h <= 65535) by (nonlinear_arith)
        requires
            0 <= oy <= h,
            h > 0,
    {
        assert(oy * 65535 <= h * 65535);
    }
    assert((h * 65535) / h == 65535) by (nonlinear_arith)
        requires
            h > 0,
    ;
    let ox = slider_offset(c1, s1).0;
    let w = s1.width as int;
    assert(0 <= ox <= w);
    assert(0 <= (ox * 65535) / w <= 65535) by (nonlinear_arith)
        requires
            0 <= ox <= w,
            w > 0,
    {
        assert(ox * 65535 <= w * 65535);
    }
    assert((w * 65535) / w == 65535) by (nonlinear_arith)
        requires
            w > 0,
    ;
}

} // verus!
