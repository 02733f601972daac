//! A sprite that repeats its edges and middle in both directions: the names
//! of its slices and how many tiles it is laid out with.
use vstd::prelude::*;

use crate::geometry::{Vector2i, Vector2u, Vector2u16};
use crate::repeatable_3x1_sprite::{at_least_three, ceil_div, ceil_div_i32};

verus! {

/// The slices that the sprite sheet of the element is cut into.
#[derive(Clone, Copy, Debug, PartialEq, Eq, Hash, Structural)]
pub enum SliceName {
    TopLeft,
    Top,
    TopRight,
    Left,
    Middle,
    Right,
    BottomLeft,
    Bottom,
    BottomRight,
}

/// The name of each slice in the sprite sheet.
pub open spec fn slice_name(s: SliceName) -> Seq<char> {
    match s {
        SliceName::TopLeft => seq!['t', 'o', 'p', '_', 'l', 'e', 'f', 't'],
        SliceName::Top => seq!['t', 'o', 'p'],
        SliceName::TopRight => seq!['t', 'o', 'p', '_', 'r', 'i', 'g', 'h', 't'],
        SliceName::Left => seq!['l', 'e', 'f', 't'],
        SliceName::Middle => seq!['m', 'i', 'd', 'd', 'l', 'e'],
        SliceName::Right => seq!['r', 'i', 'g', 'h', 't'],
        SliceName::BottomLeft => seq!['b', 'o', 't', 't', 'o', 'm', '_', 'l', 'e', 'f', 't'],
        SliceName::Bottom => seq!['b', 'o', 't', 't', 'o', 'm'],
        SliceName::BottomRight => seq!['b', 'o', 't', 't', 'o', 'm', '_', 'r', 'i', 'g', 'h', 't'],
    }
}

impl SliceName {
    /// The name of the slice in the sprite sheet.
    pub fn repr(&self) -> (r: &'static str)
        ensures
            r@ == slice_name(*self),
    {
        proof {
            reveal_strlit("top_left");
            reveal_strlit("top");
            reveal_strlit("top_right");
            reveal_strlit("left");
            reveal_strlit("middle");
            reveal_strlit("right");
            reveal_strlit("bottom_left");
            reveal_strlit("bottom");
            reveal_strlit("bottom_right");
        }
        match *self {
            SliceName::TopLeft => "top_left",
            SliceName::Top => "top",
            SliceName::TopRight => "top_right",
            SliceName::Left => "left",
            SliceName::Middle => "middle",
            SliceName::Right => "right",
            SliceName::BottomLeft => "bottom_left",
            SliceName::Bottom => "bottom",
            SliceName::BottomRight => "bottom_right",
        }
    }
}


/// The number of tiles along one axis for an extent of `desired` with
/// tiles of extent `tile`: enough to cover it, cut to 16 bits, and at
/// least three.
pub open spec fn tiles_along(desired: u32, tile: i32) -> u16 {
    at_least_three(ceil_div(desired as int, tile as int) as u16)
}

fn tiles_along_exec(desired: u32, tile: i32) -> (r: u16)
    requires
        desired <= i32::MAX,
        tile > 0,
    ensures
        r == tiles_along(desired, tile),
{
    let q = ceil_div_i32(desired as i32, tile);
    let n = q as u16;
    if n < 3 {
        3
    } else {
        n
    }
}

/// The number of tiles in each direction for a sprite of `desired_size`
/// whose middle slice has extent `tile_size`.
pub fn num_tiles(desired_size: Vector2u, tile_size: Vector2i) -> (r: Vector2u16)
    requires
        desired_size.x <= i32::MAX,
        desired_size.y <= i32::MAX,
        tile_size.x > 0,
        tile_size.y > 0,
    ensures
        r.x == tiles_along(desired_size.x, tile_size.x),
        r.y == tiles_along(desired_size.y, tile_size.y),
{
    Vector2u16::new(tiles_along_exec(desired_size.x, tile_size.x), tiles_along_exec(desired_size.y, tile_size.y))
}

} // verus!
