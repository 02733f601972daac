//! How the children of a grid element are laid out in its cells: row by
//! row, with the cells past the last child left empty.
use vstd::prelude::*;

verus! {

/// The grid's layout has fewer cells than there are children.
#[derive(Clone, Copy, Debug, PartialEq, Eq, Structural)]
pub struct TooManyGridChildren {
    pub children: usize,
    pub columns: usize,
    pub rows: usize,
}

/// The child shown in column `x`, row `y` of a layout `columns` wide: the
/// children fill the grid row by row, and a cell past the last child is
/// empty.
pub open spec fn child_at(children: usize, columns: usize, x: int, y: int) -> Option<usize> {
    let i = y * columns + x;
    if i < children {
        Some(i as usize)
    } else {
        None
    }
}

/// The cells of a `columns` by `rows` layout for `children` children, as
/// columns of rows; each cell holds the index of its child, if any.
pub fn grid_child_layout(children: usize, columns: usize, rows: usize) -> (r: Result<
    Vec<Vec<Option<usize>>>,
    TooManyGridChildren,
>)
    requires
        columns * rows <= usize::MAX,
    ensures
        columns * rows < children ==> r == Err::<Vec<Vec<Option<usize>>>, _>(
            TooManyGridChildren { children, columns, rows },
        ),
        columns * rows >= children ==> (r matches Ok(cells) && {
            &&& cells@.len() == columns
            &&& forall|x: int|
                0 <= x < columns ==> (#[trigger] cells@[x])@.len() == rows && forall|y: int|
                    0 <= y < rows ==> cells@[x]@[y] == child_at(children, columns, x, y)
        }),
{
    if columns * rows < children {
        return Err(TooManyGridChildren { children, columns, rows });
    }
    let mut cells: Vec<Vec<Option<usize>>> = Vec::new();
    let mut x: usize = 0;
    while x < columns
        invariant
            columns * rows <= usize::MAX,
            x <= columns,
            cells@.len() == x,
            forall|i: int|
                0 <= i < x ==> (#[trigger] cells@[i])@.len() == rows && forall|y: int|
                    0 <= y < rows ==> cells@[i]@[y] == child_at(children, columns, i, y),
        decreases columns - x,
    {
        let mut column: Vec<Option<usize>> = Vec::new();
        let mut y: usize = 0;
        while y < rows
            invariant
                columns * rows <= usize::MAX,
                x < columns,
                y <= rows,
                column@.len() == y,
                forall|j: int| 0 <= j < y ==> column@[j] == child_at(children, columns, x as int, j),
            decreases rows - y,
        {
            proof {
                assert(y * columns + x < columns * rows) by (nonlinear_arith)
                    requires
                        y < rows,
                        x < columns,
                ;
            }
            let i = y * columns + x;
            column.push(if i < children { Some(i) } else { None });
            y = y + 1;
        }
        cells.push(column);
        x = x + 1;
    }
    Ok(cells)
}


/// Every child is shown: child `i` sits in column `i % columns`, row
/// `i / columns`, and two different cells never show the same child.
pub proof fn lemma_every_child_has_one_cell(children: usize, columns: usize, i: int, x1: int, y1: int, x2: int, y2: int)
    requires
        columns > 0,
        0 <= i < children,
        0 <= x1 < columns,
        0 <= x2 < columns,
        0 <= y1,
        0 <= y2,
    ensures
        child_at(children, columns, i % (columns as int), i / (columns as int)) == Some(i as usize),
        child_at(children, columns, x1, y1) is Some && child_at(children, columns, x1, y1) == child_at(
            children,
            columns,
            x2,
            y2,
        ) ==> x1 == x2 && y1 == y2,
{
    assert(i == (i / (columns as int)) * columns + i % (columns as int)) by (nonlinear_arith)
        requires
            columns > 0,
    ;
    if child_at(children, columns, x1, y1) is Some && child_at(children, columns, x1, y1) == child_at(
        children,
        columns,
        x2,
        y2,
    ) {
        assert(y1 * columns + x1 == y2 * columns + x2);
        assert(x1 == x2 && y1 == y2) by (nonlinear_arith)
            requires
                y1 * columns + x1 == y2 * columns + x2,
                0 <= x1 < columns,
                0 <= x2 < columns,
                0 <= y1,
                0 <= y2,
        ;
    }
}

} // verus!
