//! Screen geometry in whole pixels: where each cell is drawn inside the grid
//! container, how large the window is, and which cell lies under a pointer.
//!
//! Every position is measured from the top-left corner of the grid container,
//! with `x` growing to the right and `y` growing downwards.

use vstd::prelude::*;

verus! {

/// The side of one square cell.
pub const CELL_SIZE: u64 = 25;

/// The margin added to the grid container, half of it on each side.
pub const GRID_MARGIN: u64 = 30;

/// The distance from the container's corner to the corner of the first cell.
pub const GRID_OFFSET: u64 = 15;

/// The height of the toolbar above the grid.
pub const TOOLBAR_HEIGHT: u64 = 40;

/// The height of the line of instructions between toolbar and grid.
pub const INSTRUCTIONS_HEIGHT: u64 = 30;

/// The side of a container that holds `cells` cells in a line.
pub open spec fn spec_container_extent(cells: nat) -> nat {
    cells * CELL_SIZE as nat + GRID_MARGIN as nat
}

/// The distance from the container's edge to the near edge of cell `index`.
pub open spec fn spec_cell_start(index: nat) -> nat {
    GRID_OFFSET as nat + index * CELL_SIZE as nat
}

/// The cell under the point `(x, y)`: the offset of the grid is taken off,
/// the rest is divided by the cell size and rounded down, and the cell counts
/// only if it lies inside the grid.
pub open spec fn spec_cell_at(x: int, y: int, rows: nat, cols: nat) -> Option<(int, int)> {
    let row = (y - GRID_OFFSET as int) / (CELL_SIZE as int);
    let col = (x - GRID_OFFSET as int) / (CELL_SIZE as int);
    if 0 <= row < rows && 0 <= col < cols {
        Some((row, col))
    } else {
        None
    }
}

/// The side of a container that holds `cells` cells in a line, or `None`
/// where that does not fit in 64 bits.
pub fn container_extent(cells: usize) -> (extent: Option<u64>)
    ensures
        extent is Some <==> spec_container_extent(cells as nat) <= u64::MAX,
        extent matches Some(e) ==> e == spec_container_extent(cells as nat),
{
    match (cells as u64).checked_mul(CELL_SIZE) {
        Some(cells_extent) => cells_extent.checked_add(GRID_MARGIN),
        None => None,
    }
}

/// The width and height of the window for a grid of `rows` by `cols` cells:
/// the grid container with the toolbar and the instructions above it. `None`
/// where either does not fit in 64 bits.
pub fn window_size(rows: usize, cols: usize) -> (size: Option<(u64, u64)>)
    ensures
        size is Some <==> spec_container_extent(cols as nat) <= u64::MAX && spec_container_extent(
            rows as nat,
        ) + TOOLBAR_HEIGHT + INSTRUCTIONS_HEIGHT <= u64::MAX,
        size matches Some((width, height)) ==> width == spec_container_extent(cols as nat)
            && height == spec_container_extent(rows as nat) + TOOLBAR_HEIGHT
            + INSTRUCTIONS_HEIGHT,
{
    let width = match container_extent(cols) {
        Some(width) => width,
        None => { return None; },
    };
    let grid_height = match container_extent(rows) {
        Some(grid_height) => grid_height,
        None => { return None; },
    };
    match grid_height.checked_add(TOOLBAR_HEIGHT) {
        Some(with_toolbar) => match with_toolbar.checked_add(INSTRUCTIONS_HEIGHT) {
            Some(height) => Some((width, height)),
            None => None,
        },
        None => None,
    }
}

/// The top-left corner `(x, y)` of the cell at `(row, col)`, or `None` where
/// it does not fit in 64 bits.
pub fn cell_origin(row: usize, col: usize) -> (origin: Option<(u64, u64)>)
    ensures
        origin is Some <==> spec_cell_start(col as nat) <= u64::MAX && spec_cell_start(row as nat)
            <= u64::MAX,
        origin matches Some((x, y)) ==> x == spec_cell_start(col as nat) && y == spec_cell_start(
            row as nat,
        ),
{
    let x = match cell_start(col) {
        Some(x) => x,
        None => { return None; },
    };
    match cell_start(row) {
        Some(y) => Some((x, y)),
        None => None,
    }
}

/// The cell under the pointer at `(x, y)`, if there is one.
pub fn cell_at(x: i64, y: i64, rows: usize, cols: usize) -> (hit: Option<(usize, usize)>)
    ensures
        match hit {
            Some((row, col)) => spec_cell_at(x as int, y as int, rows as nat, cols as nat) == Some(
                (row as int, col as int),
            ),
            None => spec_cell_at(x as int, y as int, rows as nat, cols as nat) is None,
        },
{
    if x < GRID_OFFSET as i64 || y < GRID_OFFSET as i64 {
        return None;
    }
    let row: u64 = (y - GRID_OFFSET as i64) as u64 / CELL_SIZE;
    let col: u64 = (x - GRID_OFFSET as i64) as u64 / CELL_SIZE;
    if row < rows as u64 && col < cols as u64 {
        Some((row as usize, col as usize))
    } else {
        None
    }
}

/// The distance from the container's edge to the near edge of cell `index`.
fn cell_start(index: usize) -> (start: Option<u64>)
    ensures
        start is Some <==> spec_cell_start(index as nat) <= u64::MAX,
        start matches Some(s) ==> s == spec_cell_start(index as nat),
{
    match (index as u64).checked_mul(CELL_SIZE) {
        Some(cells_extent) => cells_extent.checked_add(GRID_OFFSET),
        None => None,
    }
}

/// Hit-testing agrees with drawing: every point of the square that is drawn
/// for a cell of the grid is found to lie in that cell.
pub proof fn lemma_cell_at_inside_cell(x: int, y: int, row: nat, col: nat, rows: nat, cols: nat)
    requires
        row < rows,
        col < cols,
        spec_cell_start(col) <= x < spec_cell_start(col) + CELL_SIZE,
        spec_cell_start(row) <= y < spec_cell_start(row) + CELL_SIZE,
    ensures
        spec_cell_at(x, y, rows, cols) == Some((row as int, col as int)),
{
}

/// A pointer finds a cell exactly when it lies inside the area of the grid:
/// at or past its near edges and before its far edges. A point on a far edge,
/// in the margin, or outside the container finds none.
pub proof fn lemma_cell_at_is_some_iff_inside_grid(x: int, y: int, rows: nat, cols: nat)
    ensures
        spec_cell_at(x, y, rows, cols) is Some <==> (GRID_OFFSET <= x < spec_cell_start(cols)
            && GRID_OFFSET <= y < spec_cell_start(rows)),
        spec_cell_at(x, y, rows, cols) matches Some((row, col)) ==> 0 <= row < rows && 0 <= col
            < cols,
{
}

} // verus!
