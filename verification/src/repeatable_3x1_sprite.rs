//! A sprite that repeats its middle slice horizontally: the names of its
//! slices and how many tiles it is laid out with.
use vstd::prelude::*;

verus! {

/// The slices that the sprite sheet of the element is cut into.
#[derive(Clone, Copy, Debug, PartialEq, Eq, Hash, Structural)]
pub enum SliceName {
    Left,
    Middle,
    Right,
}

/// The name of each slice in the sprite sheet.
pub open spec fn slice_name(s: SliceName) -> Seq<char> {
    match s {
        SliceName::Left => seq!['l', 'e', 'f', 't'],
        SliceName::Middle => seq!['m', 'i', 'd', 'd', 'l', 'e'],
        SliceName::Right => seq!['r', 'i', 'g', 'h', 't'],
    }
}

impl SliceName {
    /// The name of the slice in the sprite sheet.
    pub fn repr(&self) -> (r: &'static str)
        ensures
            r@ == slice_name(*self),
    {
        proof {
            reveal_strlit("left");
            reveal_strlit("middle");
            reveal_strlit("right");
        }
        match *self {
            SliceName::Left => "left",
            SliceName::Middle => "middle",
            SliceName::Right => "right",
        }
    }
}


/// `a / b` rounded up, for `b > 0`.
pub open spec fn ceil_div(a: int, b: int) -> int {
    (a + b - 1) / b
}

/// `a / b` rounded up.
pub fn ceil_div_i32(a: i32, b: i32) -> (r: i32)
    requires
        a >= 0,
        b > 0,
    ensures
        r == ceil_div(a as int, b as int),
        0 <= r <= a,
{
    let q: u64 = (a as u64 + b as u64 - 1) / (b as u64);
    proof {
        assert(q <= a) by (nonlinear_arith)
            requires
                q == (a + b - 1) / (b as int),
                a >= 0,
                b > 0,
        ;
    }
    q as i32
}

/// At least three tiles are laid out, so that both ends and a middle show.
pub open spec fn at_least_three(n: u16) -> u16 {
    if n < 3 {
        3
    } else {
        n
    }
}

/// The number of tiles for a sprite `desired_size` wide whose middle slice
/// is `tile_width` wide: enough to cover the width, and at least three.
pub fn num_tiles(desired_size: u16, tile_width: i32) -> (r: u16)
    requires
        tile_width > 0,
    ensures
        r == at_least_three(ceil_div(desired_size as int, tile_width as int) as u16),
{
    let q = ceil_div_i32(desired_size as i32, tile_width);
    let n: u16 = if 0 <= q && q <= 65535 { q as u16 } else { 0 };
    if n < 3 {
        3
    } else {
        n
    }
}

} // verus!
