use ui::geometry::{IntRect, Vector2i};
use ui::grid::UIGrid;

#[test]
fn cell_size() {
    let grid = UIGrid::new(50, 50, Vector2i::new(10000, 10000));
    assert_eq!(grid.cell_size(), Vector2i::new(200, 200));
}

#[test]
fn cell_pos() {
    let grid = UIGrid::new(50, 50, Vector2i::new(10000, 10000));
    assert_eq!(grid.cell_pos(25, 25).expect("unit-test"), Vector2i::new(5000, 5000));
}

#[test]
fn cell_bounds() {
    let grid = UIGrid::new(50, 50, Vector2i::new(10000, 10000));
    assert_eq!(grid.cell_bounds(25, 25).expect("unit-test"), IntRect::new(5000, 5000, 200, 200));
}

#[test]
fn global_cell_pos() {
    let grid = UIGrid::new(50, 50, Vector2i::new(10000, 10000));
    let corner = grid.global_bounds.position();
    assert_eq!(
        grid.global_cell_position(25, 25).expect("unit-test"),
        Vector2i::new(corner.x + 5000, corner.y + 5000)
    );
}

#[test]
fn global_cell_bounds() {
    let grid = UIGrid::new(50, 50, Vector2i::new(10000, 10000));
    let corner = grid.global_bounds.position();
    assert_eq!(
        grid.global_cell_bounds(25, 25).expect("unit-test"),
        IntRect::from_vecs(Vector2i::new(corner.x + 5000, corner.y + 5000), grid.cell_size()),
    );
}

#[test]
fn cells_outside_the_grid_have_no_position() {
    let grid = UIGrid::new(4, 3, Vector2i::new(100, 90));
    assert_eq!(grid.cell_pos(5, 0), None);
    assert_eq!(grid.cell_pos(0, 4), None);
    // The far edge itself is still a position.
    assert_eq!(grid.cell_pos(4, 3), Some(Vector2i::new(100, 90)));
}

#[test]
fn cell_size_rounds_down_and_ignores_sign() {
    let grid = UIGrid::new(3, 4, Vector2i::new(-100, 10));
    assert_eq!(grid.cell_size(), Vector2i::new(33, 2));
}

#[test]
fn global_cells_follow_the_grid_corner() {
    let mut grid = UIGrid::new(2, 2, Vector2i::new(10, 20));
    grid.global_bounds.left = 7;
    grid.global_bounds.top = -3;
    assert_eq!(grid.global_cell_position(1, 1), Some(Vector2i::new(12, 7)));
    assert_eq!(grid.global_cell_bounds(1, 0), Some(IntRect::new(12, -3, 5, 10)));
    assert_eq!(grid.global_cell_bounds(3, 0), None);
}

#[test]
fn neighbouring_cells_touch() {
    let grid = UIGrid::new(3, 2, Vector2i::new(100, 50));
    let size = grid.cell_size();
    assert_eq!((size.x, size.y), (33, 25));
    let a = grid.cell_pos(1, 0).unwrap();
    let b = grid.cell_pos(2, 0).unwrap();
    assert_eq!(b.x, a.x + size.x);
    let c = grid.cell_pos(1, 1).unwrap();
    assert_eq!(c.y, a.y + size.y);
    assert_eq!(grid.cell_pos(4, 0), None);
}

#[test]
fn grid_children_fill_rows_first() {
    let cells = ui::grid_loading::grid_child_layout(5, 2, 3).unwrap();
    assert_eq!(cells, vec![vec![Some(0), Some(2), Some(4)], vec![Some(1), Some(3), None]]);
    assert_eq!(
        ui::grid_loading::grid_child_layout(7, 2, 3),
        Err(ui::grid_loading::TooManyGridChildren { children: 7, columns: 2, rows: 3 })
    );
    assert_eq!(ui::grid_loading::grid_child_layout(0, 0, 0), Ok(vec![]));
}
