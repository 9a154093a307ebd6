use vstd::prelude::*;
use crate::grid::Grid;
use crate::pos::Pos;
use crate::shape::Rgb;

verus! {

/// One settled block, with the color inherited from the piece it came from.
#[derive(Clone, Copy, PartialEq, Eq, Structural, Debug)]
pub struct HeapCell {
    pub pos: Pos,
    pub color: Rgb,
}

/// The settled blocks.  The collection only ever grows: a cell added here is
/// never moved or removed.
#[derive(Debug)]
pub struct Heap {
    pub cells: Vec<HeapCell>,
}

impl Heap {
    /// Whether some settled block occupies position `(x, y)`.
    pub open spec fn occupied(self, x: int, y: int) -> bool {
        exists|i: int|
            0 <= i < self.cells@.len() && (#[trigger] self.cells@[i]).pos.x == x
                && self.cells@[i].pos.y == y
    }

    /// The heap invariant: every settled block lies inside the grid columns
    /// and on or above the floor, and no two settled blocks share a position.
    pub open spec fn wf(self, grid: Grid) -> bool {
        &&& forall|i: int|
            0 <= i < self.cells@.len() ==> 0 <= (#[trigger] self.cells@[i]).pos.x < grid.width
                && 0 <= self.cells@[i].pos.y
        &&& forall|i: int, j: int|
            0 <= i < j < self.cells@.len() ==> (#[trigger] self.cells@[i]).pos != (
            #[trigger] self.cells@[j]).pos
    }

    /// An empty heap, as a session starts with.
    pub fn new() -> (heap: Heap)
        ensures
            heap.cells@.len() == 0,
    {
        Heap { cells: Vec::new() }
    }

    /// Whether position `(x, y)` holds a settled block.
    pub fn contains(&self, x: i32, y: i32) -> (found: bool)
        ensures
            found == self.occupied(x as int, y as int),
    {
        let n = self.cells.len();
        let mut i: usize = 0;
        while i < n
            invariant
                n == self.cells@.len(),
                0 <= i <= n,
                forall|k: int|
                    0 <= k < i ==> !((#[trigger] self.cells@[k]).pos.x == x && self.cells@[k].pos.y
                        == y),
            decreases n - i,
        {
            let cell = &self.cells[i];
            if cell.pos.x == x && cell.pos.y == y {
                return true;
            }
            i += 1;
        }
        false
    }
}

} // verus!
