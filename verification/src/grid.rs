//! A grid of `m` columns by `n` rows laid over a rectangle, and the cells it
//! cuts the rectangle into.
use vstd::prelude::*;

use crate::geometry::{IntRect, Vector2i};
use crate::positioning::fits_i32;

verus! {

/// `m` columns by `n` rows over `global_bounds`.
#[derive(Clone, Copy, Debug, PartialEq, Eq, Structural)]
pub struct UIGrid {
    pub m: u16,
    pub n: u16,
    pub global_bounds: IntRect,
}

/// The absolute value of an integer.
pub open spec fn abs_int(v: int) -> int {
    if v < 0 {
        -v
    } else {
        v
    }
}

/// A cell index times the cell extent stays within the extent of the whole grid.
proof fn lemma_cell_offset_bounded(a: int, cells: int, extent: int)
    by (nonlinear_arith)
    requires
        0 <= a <= cells,
        0 < cells,
        0 <= extent,
    ensures
        0 <= a * (extent / cells) <= extent,
{
    assert(0 <= extent / cells);
    assert(a * (extent / cells) <= cells * (extent / cells));
    assert(cells * (extent / cells) <= extent);
}

impl UIGrid {
    /// A grid over the rectangle at the origin with extent `size`.
    pub fn new(m: u16, n: u16, size: Vector2i) -> (r: Self)
        ensures
            r.m == m,
            r.n == n,
            r.global_bounds == (IntRect { left: 0, top: 0, width: size.x, height: size.y }),
    {
        UIGrid { m, n, global_bounds: IntRect::from_vecs(Vector2i::new(0, 0), size) }
    }

    /// The grid has cells and its extent has an absolute value in `i32`.
    pub open spec fn well_sized(self) -> bool {
        &&& self.m > 0
        &&& self.n > 0
        &&& self.global_bounds.width != i32::MIN
        &&& self.global_bounds.height != i32::MIN
    }

    /// The extent of one cell: the absolute extent of the grid divided by the
    /// number of cells along each axis, rounded down.
    pub open spec fn spec_cell_size(self) -> Vector2i {
        Vector2i {
            x: (abs_int(self.global_bounds.width as int) / (self.m as int)) as i32,
            y: (abs_int(self.global_bounds.height as int) / (self.n as int)) as i32,
        }
    }

    pub fn cell_size(&self) -> (r: Vector2i)
        requires
            self.well_sized(),
        ensures
            r == self.spec_cell_size(),
            0 <= r.x,
            0 <= r.y,
    {
        let w = if self.global_bounds.width < 0 {
            -self.global_bounds.width
        } else {
            self.global_bounds.width
        };
        let h = if self.global_bounds.height < 0 {
            -self.global_bounds.height
        } else {
            self.global_bounds.height
        };
        Vector2i::new(w / (self.m as i32), h / (self.n as i32))
    }

    /// The offset of cell `(m, n)` from the grid's corner, for `m` up to the
    /// number of columns and `n` up to the number of rows (both inclusive).
    pub open spec fn spec_cell_pos(self, m: u16, n: u16) -> Option<Vector2i> {
        if m > self.m || n > self.n {
            None
        } else {
            Some(
                Vector2i {
                    x: (m * self.spec_cell_size().x) as i32,
                    y: (n * self.spec_cell_size().y) as i32,
                },
            )
        }
    }

    pub fn cell_pos(&self, m: u16, n: u16) -> (r: Option<Vector2i>)
        requires
            self.well_sized(),
        ensures
            r == self.spec_cell_pos(m, n),
    {
        if m > self.m || n > self.n {
            None
        } else {
            let cell_size = self.cell_size();
            proof {
                lemma_cell_offset_bounded(
                    m as int,
                    self.m as int,
                    abs_int(self.global_bounds.width as int),
                );
                lemma_cell_offset_bounded(
                    n as int,
                    self.n as int,
                    abs_int(self.global_bounds.height as int),
                );
            }
            Some(Vector2i::new((m as i32) * cell_size.x, (n as i32) * cell_size.y))
        }
    }

    /// The rectangle of cell `(m, n)` relative to the grid's corner.
    pub fn cell_bounds(&self, m: u16, n: u16) -> (r: Option<IntRect>)
        requires
            self.well_sized(),
        ensures
            r == (match self.spec_cell_pos(m, n) {
                Some(p) => Some(IntRect::from_vecs_spec(p, self.spec_cell_size())),
                None => None,
            }),
    {
        match self.cell_pos(m, n) {
            Some(p) => Some(IntRect::from_vecs(p, self.cell_size())),
            None => None,
        }
    }

    /// Adding the grid's corner to the offset of cell `(m, n)` stays within `i32`.
    pub open spec fn global_fits(self, m: u16, n: u16) -> bool {
        match self.spec_cell_pos(m, n) {
            Some(p) => fits_i32(p.x + self.global_bounds.left) && fits_i32(
                p.y + self.global_bounds.top,
            ),
            None => true,
        }
    }

    pub open spec fn spec_global_cell_position(self, m: u16, n: u16) -> Option<Vector2i> {
        match self.spec_cell_pos(m, n) {
            Some(p) => Some(
                Vector2i {
                    x: (p.x + self.global_bounds.left) as i32,
                    y: (p.y + self.global_bounds.top) as i32,
                },
            ),
            None => None,
        }
    }

    /// The corner of cell `(m, n)` in the coordinates of the grid's rectangle.
    pub fn global_cell_position(&self, m: u16, n: u16) -> (r: Option<Vector2i>)
        requires
            self.well_sized(),
            self.global_fits(m, n),
        ensures
            r == self.spec_global_cell_position(m, n),
    {
        match self.cell_pos(m, n) {
            Some(p) => {
                let corner = self.global_bounds.position();
                Some(Vector2i::new(p.x + corner.x, p.y + corner.y))
            },
            None => None,
        }
    }

    /// The rectangle of cell `(m, n)` in the coordinates of the grid's rectangle.
    pub fn global_cell_bounds(&self, m: u16, n: u16) -> (r: Option<IntRect>)
        requires
            self.well_sized(),
            self.global_fits(m, n),
        ensures
            r == (match self.spec_global_cell_position(m, n) {
                Some(p) => Some(IntRect::from_vecs_spec(p, self.spec_cell_size())),
                None => None,
            }),
    {
        match self.global_cell_position(m, n) {
            Some(p) => Some(IntRect::from_vecs(p, self.cell_size())),
            None => None,
        }
    }
}

/// Every cell index of a well-sized grid lies inside the grid's extent.
pub proof fn lemma_cell_pos_within_grid(g: UIGrid, m: u16, n: u16)
    requires
        g.well_sized(),
        m <= g.m,
        n <= g.n,
    ensures
        g.spec_cell_pos(m, n) is Some,
        0 <= g.spec_cell_pos(m, n)->0.x <= abs_int(g.global_bounds.width as int),
        0 <= g.spec_cell_pos(m, n)->0.y <= abs_int(g.global_bounds.height as int),
{
    lemma_cell_offset_bounded(m as int, g.m as int, abs_int(g.global_bounds.width as int));
    lemma_cell_offset_bounded(n as int, g.n as int, abs_int(g.global_bounds.height as int));
}


/// Neighbouring cells touch: the next cell along either axis starts where
/// the cell before it ends.
pub proof fn lemma_cells_are_adjacent(g: UIGrid, m: u16, n: u16)
    requires
        g.well_sized(),
        m < g.m,
        n < g.n,
    ensures
        g.spec_cell_pos((m + 1) as u16, n)->0.x == g.spec_cell_pos(m, n)->0.x + g.spec_cell_size().x,
        g.spec_cell_pos(m, (n + 1) as u16)->0.y == g.spec_cell_pos(m, n)->0.y + g.spec_cell_size().y,
        g.spec_cell_pos((m + 1) as u16, n)->0.y == g.spec_cell_pos(m, n)->0.y,
{
    let w = abs_int(g.global_bounds.width as int);
    let h = abs_int(g.global_bounds.height as int);
    lemma_cell_offset_bounded(m as int, g.m as int, w);
    lemma_cell_offset_bounded(m as int + 1, g.m as int, w);
    lemma_cell_offset_bounded(n as int, g.n as int, h);
    lemma_cell_offset_bounded(n as int + 1, g.n as int, h);
    assert((m + 1) * (w / (g.m as int)) == m * (w / (g.m as int)) + w / (g.m as int)) by (nonlinear_arith);
    assert((n + 1) * (h / (g.n as int)) == n * (h / (g.n as int)) + h / (g.n as int)) by (nonlinear_arith);
}

} // verus!
