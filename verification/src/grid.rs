use vstd::prelude::*;

verus! {

/// The widest grid side accepted; comfortably below [`crate::piece::COORD_LIMIT`],
/// so the per-tick shifts of a piece inside the grid never leave that range.
pub const GRID_LIMIT: i32 = 0x2000_0000;

/// The playfield: a fixed count of columns and rows, never resized.  The
/// y-axis is open at the top by design: only the floor is checked, by the
/// collision resolver rather than by the grid itself.
#[derive(Clone, Copy, PartialEq, Eq, Structural, Debug)]
pub struct Grid {
    pub width: i32,
    pub height: i32,
}

impl Grid {
    /// Both sides strictly positive, and small enough that coordinate
    /// arithmetic around the grid stays inside `i32`.
    pub open spec fn wf(self) -> bool {
        &&& 0 < self.width <= GRID_LIMIT
        &&& 0 < self.height <= GRID_LIMIT
    }

    pub fn new(width: i32, height: i32) -> (grid: Grid)
        requires
            0 < width <= GRID_LIMIT,
            0 < height <= GRID_LIMIT,
        ensures
            grid.width == width,
            grid.height == height,
            grid.wf(),
    {
        Grid { width, height }
    }

    /// The number of columns.
    pub fn width(&self) -> (width: i32)
        ensures
            width == self.width,
    {
        self.width
    }

    /// The number of rows.
    pub fn height(&self) -> (height: i32)
        ensures
            height == self.height,
    {
        self.height
    }

    /// Whether a column lies inside the grid.
    pub fn in_x_bounds(&self, x: i32) -> (inside: bool)
        ensures
            inside == (0 <= x < self.width),
    {
        0 <= x && x < self.width
    }
}

} // verus!
