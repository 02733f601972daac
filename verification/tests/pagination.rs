use ui::geometry::Vector2u16;
use ui::pagination::GridPagination;

fn pages(from: (u16, u16)) -> GridPagination {
    GridPagination { from: Vector2u16::new(from.0, from.1), pagination_size: Vector2u16::new(2, 3), m: 10, n: 12 }
}

#[test]
fn paging_back_to_the_start() {
    let mut p = pages((4, 5));
    p.paginate_left(2);
    assert_eq!(p.from.x, 0);
    assert_eq!(p.from.y, 5);
    let mut p = pages((4, 5));
    p.paginate_up(5);
    assert_eq!(p.from.y, 0);
    assert_eq!(p.from.x, 4);
}

#[test]
fn paging_right_by_a_positive_amount_returns_to_the_start() {
    let mut p = pages((4, 5));
    p.paginate_right(3);
    assert_eq!(p.from.x, 0);
    let mut p = pages((4, 5));
    p.paginate_down(2);
    assert_eq!(p.from.y, 0);
}

#[test]
fn paging_beyond_the_start_offsets_from_the_row() {
    // Paging left past the first column starts from the row start plus the amount.
    let mut p = pages((4, 5));
    p.paginate_left(100);
    assert_eq!(p.from.x, 105);
    assert_eq!(p.from.y, 5);
    let mut p = pages((4, 5));
    p.paginate_up(100);
    assert_eq!(p.from.y, 105);
    let mut p = pages((4, 5));
    p.paginate_down(-10);
    assert_eq!(p.from.y, 15);
}

#[test]
fn paging_saturates_at_u16_max() {
    let mut p = pages((4, 65000));
    p.paginate_left(1000);
    assert_eq!(p.from.x, u16::MAX);
}

#[test]
fn page_ranges() {
    let p = pages((4, 5));
    assert_eq!(p.page_ranges(), (4, 6, 5, 8));
}

#[test]
fn padding_fills_the_page() {
    let padded = ui::pagination::pad_elements(vec![vec![1], vec![2, 3, 4]], Vector2u16::new(3, 2), &0);
    assert_eq!(padded, vec![vec![1, 0], vec![2, 3, 4], vec![0, 0]]);
    let untouched = ui::pagination::pad_elements(vec![vec![5, 6]], Vector2u16::new(1, 1), &0);
    assert_eq!(untouched, vec![vec![5, 6]]);
}

#[test]
fn paginated_cells_run_column_by_column() {
    let p = GridPagination { from: Vector2u16::new(1, 0), pagination_size: Vector2u16::new(2, 2), m: 2, n: 2 };
    assert_eq!(
        p.paginated_cells(),
        vec![((0, 0), (1, 0)), ((0, 1), (1, 1)), ((1, 0), (2, 0)), ((1, 1), (2, 1))]
    );
}
