use ascii_level_editor::layout::{
    cell_at, cell_origin, container_extent, window_size, CELL_SIZE, GRID_MARGIN, GRID_OFFSET,
    INSTRUCTIONS_HEIGHT, TOOLBAR_HEIGHT,
};

#[test]
fn layout_constants() {
    assert_eq!(CELL_SIZE, 25);
    assert_eq!(GRID_MARGIN, 30);
    assert_eq!(GRID_OFFSET, 15);
    assert_eq!(GRID_OFFSET * 2, GRID_MARGIN);
    assert_eq!(TOOLBAR_HEIGHT, 40);
    assert_eq!(INSTRUCTIONS_HEIGHT, 30);
}

#[test]
fn container_extent_of_default_grid() {
    assert_eq!(container_extent(25), Some(655));
    assert_eq!(container_extent(0), Some(30));
    assert_eq!(container_extent(1), Some(55));
}

#[test]
fn container_extent_that_does_not_fit() {
    assert_eq!(container_extent(usize::MAX), None);
}

#[test]
fn window_size_of_default_grid() {
    assert_eq!(window_size(25, 25), Some((655, 725)));
    assert_eq!(window_size(10, 20), Some((530, 350)));
    assert_eq!(window_size(usize::MAX, 1), None);
    assert_eq!(window_size(1, usize::MAX), None);
}

#[test]
fn cell_origins() {
    assert_eq!(cell_origin(0, 0), Some((15, 15)));
    assert_eq!(cell_origin(2, 1), Some((40, 65)));
    assert_eq!(cell_origin(24, 24), Some((615, 615)));
    assert_eq!(cell_origin(usize::MAX, 0), None);
}

#[test]
fn pointer_inside_cells() {
    assert_eq!(cell_at(15, 15, 25, 25), Some((0, 0)));
    assert_eq!(cell_at(39, 39, 25, 25), Some((0, 0)));
    assert_eq!(cell_at(40, 15, 25, 25), Some((0, 1)));
    assert_eq!(cell_at(15, 40, 25, 25), Some((1, 0)));
    assert_eq!(cell_at(100, 300, 25, 25), Some((11, 3)));
    assert_eq!(cell_at(639, 639, 25, 25), Some((24, 24)));
}

#[test]
fn pointer_on_far_edge_or_outside_hits_nothing() {
    assert_eq!(cell_at(640, 100, 25, 25), None);
    assert_eq!(cell_at(100, 640, 25, 25), None);
    assert_eq!(cell_at(640, 640, 25, 25), None);
    assert_eq!(cell_at(14, 100, 25, 25), None);
    assert_eq!(cell_at(100, 14, 25, 25), None);
    assert_eq!(cell_at(0, 0, 25, 25), None);
    assert_eq!(cell_at(-1, 100, 25, 25), None);
    assert_eq!(cell_at(100, -1, 25, 25), None);
    assert_eq!(cell_at(i64::MIN, i64::MIN, 25, 25), None);
    assert_eq!(cell_at(i64::MAX, i64::MAX, 25, 25), None);
    assert_eq!(cell_at(654, 654, 25, 25), None);
}

#[test]
fn pointer_over_grid_without_cells() {
    assert_eq!(cell_at(15, 15, 0, 0), None);
    assert_eq!(cell_at(15, 15, 0, 5), None);
    assert_eq!(cell_at(15, 15, 5, 0), None);
}

#[test]
fn every_point_of_a_drawn_cell_hits_that_cell() {
    for row in 0..3usize {
        for col in 0..4usize {
            let (x0, y0) = cell_origin(row, col).unwrap();
            for dx in 0..CELL_SIZE {
                for dy in 0..CELL_SIZE {
                    let hit = cell_at((x0 + dx) as i64, (y0 + dy) as i64, 3, 4);
                    assert_eq!(hit, Some((row, col)));
                }
            }
        }
    }
}
