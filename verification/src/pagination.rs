//! Paging through a grid of `m` by `n` cells that shows a window of
//! `pagination_size` cells starting at `from`.
use vstd::prelude::*;

use crate::geometry::Vector2u16;
use crate::positioning::fits_i32;

verus! {

/// The first shown column and row, the shown window, and the grid's extent in cells.
#[derive(Clone, Copy, Debug, PartialEq, Eq, Structural)]
pub struct GridPagination {
    pub from: Vector2u16,
    pub pagination_size: Vector2u16,
    pub m: u16,
    pub n: u16,
}

/// A `u16` as `u16::try_from` reads an `i32`, saturating at `u16::MAX` when out of range.
pub open spec fn u16_or_max(v: int) -> u16 {
    if 0 <= v <= 65535 {
        v as u16
    } else {
        65535u16
    }
}

/// The new start of a page along one axis when paging back by `amount`
/// cells: the start `from` is the current start, `page` the window's extent,
/// `cells` the grid's extent, and `other_from` the start that the fallback
/// is computed from. Both paging left and paging up pass the first shown
/// row, `from.y`: paging left falls back to the row start, not the column
/// start, and paging up to its own start.
///
/// Paging lands on the first page when the new start would not be
/// negative, on the last page when the window would reach the end, and
/// otherwise on `other_from + amount` (saturated to `u16`).
pub open spec fn paged_start(from: u16, amount: i32, page: u16, cells: u16, other_from: u16) -> int {
    if from - amount >= 0 {
        0
    } else if from - amount + page >= cells {
        cells - page
    } else {
        u16_or_max(other_from + amount) as int
    }
}

/// The arithmetic of `paged_start` stays within its integer types.
pub open spec fn paged_start_fits(from: u16, amount: i32, page: u16, cells: u16, other_from: u16) -> bool {
    &&& fits_i32(from - amount)
    &&& fits_i32(from - amount + page)
    &&& (from - amount < 0 && from - amount + page >= cells ==> page <= cells)
    &&& (from - amount < 0 && from - amount + page < cells ==> fits_i32(other_from + amount))
}

fn paged_start_exec(from: u16, amount: i32, page: u16, cells: u16, other_from: u16) -> (r: u16)
    requires
        paged_start_fits(from, amount, page, cells, other_from),
    ensures
        r == paged_start(from, amount, page, cells, other_from),
{
    let is_first_page = (from as i32) - amount >= 0;
    let is_last_page = (from as i32) - amount + (page as i32) >= (cells as i32);
    if is_first_page {
        0
    } else if is_last_page {
        cells - page
    } else {
        let v = (other_from as i32) + amount;
        if 0 <= v && v <= 65535 {
            v as u16
        } else {
            65535
        }
    }
}

impl GridPagination {
    /// Pages left by `amount` columns (see `paged_start`; the fallback
    /// start is computed from the first shown row, `from.y`).
    pub fn paginate_left(&mut self, amount: i32)
        requires
            paged_start_fits(old(self).from.x, amount, old(self).pagination_size.x, old(self).m, old(self).from.y),
        ensures
            final(self).from.x == paged_start(old(self).from.x, amount, old(self).pagination_size.x, old(self).m, old(self).from.y),
            final(self).from.y == old(self).from.y,
            final(self).pagination_size == old(self).pagination_size,
            final(self).m == old(self).m,
            final(self).n == old(self).n,
    {
        self.from.x = paged_start_exec(self.from.x, amount, self.pagination_size.x, self.m, self.from.y);
    }

    /// Pages right by `amount` columns: paging left by `-amount`.
    pub fn paginate_right(&mut self, amount: i32)
        requires
            amount != i32::MIN,
            paged_start_fits(old(self).from.x, -amount as i32, old(self).pagination_size.x, old(self).m, old(self).from.y),
        ensures
            final(self).from.x == paged_start(old(self).from.x, -amount as i32, old(self).pagination_size.x, old(self).m, old(self).from.y),
            final(self).from.y == old(self).from.y,
            final(self).pagination_size == old(self).pagination_size,
            final(self).m == old(self).m,
            final(self).n == old(self).n,
    {
        self.paginate_left(-amount);
    }

    /// Pages up by `amount` rows (see `paged_start`).
    pub fn paginate_up(&mut self, amount: i32)
        requires
            paged_start_fits(old(self).from.y, amount, old(self).pagination_size.y, old(self).n, old(self).from.y),
        ensures
            final(self).from.y == paged_start(old(self).from.y, amount, old(self).pagination_size.y, old(self).n, old(self).from.y),
            final(self).from.x == old(self).from.x,
            final(self).pagination_size == old(self).pagination_size,
            final(self).m == old(self).m,
            final(self).n == old(self).n,
    {
        self.from.y = paged_start_exec(self.from.y, amount, self.pagination_size.y, self.n, self.from.y);
    }

    /// Pages down by `amount` rows: paging up by `-amount`.
    pub fn paginate_down(&mut self, amount: i32)
        requires
            amount != i32::MIN,
            paged_start_fits(old(self).from.y, -amount as i32, old(self).pagination_size.y, old(self).n, old(self).from.y),
        ensures
            final(self).from.y == paged_start(old(self).from.y, -amount as i32, old(self).pagination_size.y, old(self).n, old(self).from.y),
            final(self).from.x == old(self).from.x,
            final(self).pagination_size == old(self).pagination_size,
            final(self).m == old(self).m,
            final(self).n == old(self).n,
    {
        self.paginate_up(-amount);
    }

    /// The shown columns `start_x..end_x` and rows `start_y..end_y`.
    pub fn page_ranges(&self) -> (r: (usize, usize, usize, usize))
        ensures
            r.0 == self.from.x,
            r.1 == self.from.x + self.pagination_size.x,
            r.2 == self.from.y,
            r.3 == self.from.y + self.pagination_size.y,
    {
        let start_x = self.from.x as usize;
        let start_y = self.from.y as usize;
        (start_x, start_x + self.pagination_size.x as usize, start_y, start_y + self.pagination_size.y as usize)
    }
}

/// Paging back by no more than the current start, `amount <= from` (so
/// also paging by nothing or forward), jumps to the first page, start 0.
pub proof fn lemma_paging_back_from_start_stays(from: u16, amount: i32, page: u16, cells: u16, other: u16)
    requires
        amount <= from,
    ensures
        paged_start(from, amount, page, cells, other) == 0,
{
}


/// The table of a grid's elements, column by column, padded so that it has
/// at least `pagination_size.x` columns and every column at least
/// `pagination_size.y` cells; each added cell is a clone of `empty`.
pub fn pad_elements<T: Clone>(elements: Vec<Vec<T>>, pagination_size: Vector2u16, empty: &T) -> (r: Vec<Vec<T>>)
    ensures
        r@.len() == (if elements@.len() < pagination_size.x { pagination_size.x as int } else { elements@.len() as int }),
        forall|i: int|
            0 <= i < elements@.len() ==> {
                &&& #[trigger] r@[i]@.len() == (if elements@[i]@.len() < pagination_size.y {
                    pagination_size.y as int
                } else {
                    elements@[i]@.len() as int
                })
                &&& forall|j: int| 0 <= j < elements@[i]@.len() ==> r@[i]@[j] == elements@[i]@[j]
                &&& forall|j: int| elements@[i]@.len() <= j < r@[i]@.len() ==> cloned(*empty, r@[i]@[j])
            },
        forall|i: int|
            elements@.len() <= i < r@.len() ==> {
                &&& #[trigger] r@[i]@.len() == pagination_size.y
                &&& forall|j: int| 0 <= j < r@[i]@.len() ==> cloned(*empty, r@[i]@[j])
            },
{
    let ghost old_elements = elements@;
    let mut elements = elements;
    let columns = elements.len();
    let rows = pagination_size.y as usize;
    let mut out: Vec<Vec<T>> = Vec::new();
    let mut i: usize = 0;
    while i < columns
        invariant
            columns == old_elements.len(),
            i <= columns,
            rows == pagination_size.y,
            elements@.len() == columns,
            forall|k: int| i <= k < columns ==> #[trigger] elements@[k] == old_elements[k],
            out@.len() == i,
            forall|k: int|
                0 <= k < i ==> {
                    &&& #[trigger] out@[k]@.len() == (if old_elements[k]@.len() < rows {
                        rows as int
                    } else {
                        old_elements[k]@.len() as int
                    })
                    &&& forall|j: int| 0 <= j < old_elements[k]@.len() ==> out@[k]@[j] == old_elements[k]@[j]
                    &&& forall|j: int| old_elements[k]@.len() <= j < out@[k]@.len() ==> cloned(*empty, out@[k]@[j])
                },
        decreases columns - i,
    {
        let mut column: Vec<T> = Vec::new();
        std::mem::swap(&mut column, &mut elements[i]);
        let ghost before = column@;
        while column.len() < rows
            invariant
                before.len() <= column@.len(),
                column@.len() <= (if before.len() < rows { rows as int } else { before.len() as int }),
                forall|j: int| 0 <= j < before.len() ==> column@[j] == before[j],
                forall|j: int| before.len() <= j < column@.len() ==> cloned(*empty, column@[j]),
            decreases rows - column@.len(),
        {
            column.push(empty.clone());
        }
        out.push(column);
        i = i + 1;
    }
    while out.len() < pagination_size.x as usize
        invariant
            columns == old_elements.len(),
            columns <= out@.len(),
            out@.len() <= (if columns < pagination_size.x { pagination_size.x as int } else { columns as int }),
            rows == pagination_size.y,
            forall|k: int|
                0 <= k < columns ==> {
                    &&& #[trigger] out@[k]@.len() == (if old_elements[k]@.len() < rows {
                        rows as int
                    } else {
                        old_elements[k]@.len() as int
                    })
                    &&& forall|j: int| 0 <= j < old_elements[k]@.len() ==> out@[k]@[j] == old_elements[k]@[j]
                    &&& forall|j: int| old_elements[k]@.len() <= j < out@[k]@.len() ==> cloned(*empty, out@[k]@[j])
                },
            forall|k: int|
                columns <= k < out@.len() ==> {
                    &&& #[trigger] out@[k]@.len() == rows
                    &&& forall|j: int| 0 <= j < out@[k]@.len() ==> cloned(*empty, out@[k]@[j])
                },
        decreases pagination_size.x - out@.len(),
    {
        let mut column: Vec<T> = Vec::new();
        while column.len() < rows
            invariant
                column@.len() <= rows,
                forall|j: int| 0 <= j < column@.len() ==> cloned(*empty, column@[j]),
            decreases rows - column@.len(),
        {
            column.push(empty.clone());
        }
        out.push(column);
    }
    out
}

/// The cells on the current page, column by column: each cell's position
/// on the page and its column and row in the whole table.
pub open spec fn page_cell(from: Vector2u16, pagination_size: Vector2u16, k: int) -> ((int, int), (int, int)) {
    let x = k / (pagination_size.y as int);
    let y = k % (pagination_size.y as int);
    ((x, y), (from.x + x, from.y + y))
}

impl GridPagination {
    /// The cells on the current page, column by column (see `page_cell`).
    pub fn paginated_cells(&self) -> (r: Vec<((usize, usize), (usize, usize))>)
        ensures
            r@.len() == self.pagination_size.x * self.pagination_size.y,
            forall|k: int|
                0 <= k < r@.len() ==> {
                    let c = page_cell(self.from, self.pagination_size, k);
                    &&& (#[trigger] r@[k]).0.0 == c.0.0
                    &&& r@[k].0.1 == c.0.1
                    &&& r@[k].1.0 == c.1.0
                    &&& r@[k].1.1 == c.1.1
                },
    {
        let px = self.pagination_size.x as usize;
        let py = self.pagination_size.y as usize;
        let fx = self.from.x as usize;
        let fy = self.from.y as usize;
        let mut r: Vec<((usize, usize), (usize, usize))> = Vec::new();
        let mut x: usize = 0;
        while x < px
            invariant
                px == self.pagination_size.x,
                py == self.pagination_size.y,
                fx == self.from.x,
                fy == self.from.y,
                x <= px,
                r@.len() == x * py,
                forall|k: int|
                    0 <= k < r@.len() ==> {
                        let c = page_cell(self.from, self.pagination_size, k);
                        &&& (#[trigger] r@[k]).0.0 == c.0.0
                        &&& r@[k].0.1 == c.0.1
                        &&& r@[k].1.0 == c.1.0
                        &&& r@[k].1.1 == c.1.1
                    },
            decreases px - x,
        {
            let mut y: usize = 0;
            while y < py
                invariant
                    px == self.pagination_size.x,
                    py == self.pagination_size.y,
                    fx == self.from.x,
                    fy == self.from.y,
                    x < px,
                    y <= py,
                    r@.len() == x * py + y,
                    forall|k: int|
                        0 <= k < r@.len() ==> {
                            let c = page_cell(self.from, self.pagination_size, k);
                            &&& (#[trigger] r@[k]).0.0 == c.0.0
                            &&& r@[k].0.1 == c.0.1
                            &&& r@[k].1.0 == c.1.0
                            &&& r@[k].1.1 == c.1.1
                        },
                decreases py - y,
            {
                proof {
                    let k = x * py + y;
                    assert(k / (py as int) == x && k % (py as int) == y) by (nonlinear_arith)
                        requires
                            k == x * py + y,
                            0 <= y < py,
                            0 <= x,
                    ;
                }
                r.push(((x, y), (fx + x, fy + y)));
                y = y + 1;
            }
            proof {
                assert((x + 1) * py == x * py + py) by (nonlinear_arith);
            }
            x = x + 1;
        }
        r
    }
}

} // verus!
