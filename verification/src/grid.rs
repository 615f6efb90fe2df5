//! Geometry of the fixed square play field: a grid of `ROW_SQUARES` by
//! `ROW_SQUARES` cells, each `SQUARE_SIZE` pixels wide, addressed either by
//! a linear cell index or by pixel coordinates of the cell's corner.

use vstd::prelude::*;

verus! {

/// Side length of the square window, in pixels.
pub const WINDOW_SIZE: u32 = 480;

/// Number of cells along one side of the grid.
pub const ROW_SQUARES: u32 = 32;

/// Total number of cells on the grid.
pub const MAX_SQUARES: u32 = ROW_SQUARES * ROW_SQUARES;

/// Side length of one cell, in pixels.
pub const SQUARE_SIZE: u32 = WINDOW_SIZE / ROW_SQUARES;

/// Pixel x coordinate of the cell with linear index `i`.
pub open spec fn cell_x(i: int) -> int {
    (i % (ROW_SQUARES as int)) * (SQUARE_SIZE as int)
}

/// Pixel y coordinate of the cell with linear index `i`.
pub open spec fn cell_y(i: int) -> int {
    (i / (ROW_SQUARES as int)) * (SQUARE_SIZE as int)
}

/// `(x, y)` is the corner of some cell of the grid.
pub open spec fn is_cell(x: int, y: int) -> bool {
    exists|i: int| 0 <= i < MAX_SQUARES && x == cell_x(i) && y == cell_y(i)
}

/// Converts a linear cell index to the pixel coordinates of its corner.
pub fn index_to_coords(i: u32) -> (r: (i32, i32))
    requires
        i < MAX_SQUARES,
    ensures
        r.0 == cell_x(i as int),
        r.1 == cell_y(i as int),
        0 <= r.0 < WINDOW_SIZE,
        0 <= r.1 < WINDOW_SIZE,
{
    let x = (i % ROW_SQUARES) * SQUARE_SIZE;
    let y = (i / ROW_SQUARES) * SQUARE_SIZE;
    (x as i32, y as i32)
}

} // verus!
