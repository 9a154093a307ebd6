use vstd::prelude::*;
use crate::pos::Pos;
use crate::shape::{PieceKind, spec_bbox_size, spec_offsets, bbox_size, block_offsets};
use crate::shape::lemma_offsets_in_bbox;
use crate::grid::Grid;

verus! {

/// The widest coordinate the geometry functions accept; keeps every
/// intermediate sum of a coordinate and a small shift inside `i32`.
pub const COORD_LIMIT: i32 = 0x4000_0000;

/// A coordinate pair far enough from the `i32` boundaries that translating it
/// by the small per-tick shifts cannot overflow.
pub open spec fn pos_in_range(p: Pos) -> bool {
    &&& -COORD_LIMIT <= p.x <= COORD_LIMIT
    &&& -COORD_LIMIT <= p.y <= COORD_LIMIT
}

/// One block of the active piece: the local index it occupies inside the
/// kind's bounding square (what the rotation transform turns) and its grid
/// position (what translation shifts).
#[derive(Clone, Copy, PartialEq, Eq, Structural, Debug)]
pub struct CellState {
    pub index: Pos,
    pub pos: Pos,
}

/// The active piece: a kind and its four cells.  The grid position of every
/// cell is the cell's local index plus one anchor shared by the whole piece;
/// rotation and translation keep the two in sync.
#[derive(Clone, Copy, Debug)]
pub struct Piece {
    pub kind: PieceKind,
    pub cells: [CellState; 4],
}

/// The local index turned a quarter around the center of the
/// `bbox` x `bbox` square.
pub open spec fn spec_rotated_index(index: Pos, bbox: int, clockwise: bool) -> Pos {
    if clockwise {
        Pos { x: index.y, y: (bbox - 1 - index.x) as i32 }
    } else {
        Pos { x: (bbox - 1 - index.y) as i32, y: index.x }
    }
}

/// A cell after rotation: the local index is turned, and the grid position is
/// shifted by exactly the amount the local index moved.
pub open spec fn spec_rotated_cell(cell: CellState, bbox: int, clockwise: bool) -> CellState {
    let turned = spec_rotated_index(cell.index, bbox, clockwise);
    CellState {
        index: turned,
        pos: Pos {
            x: (cell.pos.x + turned.x - cell.index.x) as i32,
            y: (cell.pos.y + turned.y - cell.index.y) as i32,
        },
    }
}

/// A cell translated by `(dx, dy)`: the grid position shifts, the local index
/// stays.
pub open spec fn spec_translated_cell(cell: CellState, dx: int, dy: int) -> CellState {
    CellState {
        index: cell.index,
        pos: Pos { x: (cell.pos.x + dx) as i32, y: (cell.pos.y + dy) as i32 },
    }
}

/// The cell the spawn operation places for local offset `i` of `kind` on a
/// grid of the given height: three columns to the right, and vertically so
/// that the top of the kind's bounding square sits flush with the grid top.
pub open spec fn spec_spawn_cell(kind: PieceKind, i: int, height: int) -> CellState {
    let off = spec_offsets(kind)[i];
    CellState {
        index: off,
        pos: Pos { x: (off.x + 3) as i32, y: (height - spec_bbox_size(kind) + off.y) as i32 },
    }
}

impl Piece {
    /// Horizontal anchor: what is added to a local index to get a grid column.
    pub open spec fn anchor_x(self) -> int {
        self.cells@[0].pos.x - self.cells@[0].index.x
    }

    /// Vertical anchor: what is added to a local index to get a grid row.
    pub open spec fn anchor_y(self) -> int {
        self.cells@[0].pos.y - self.cells@[0].index.y
    }

    /// Geometric well-formedness: every local index lies inside the kind's
    /// bounding square, no two cells share a local index, and all four grid
    /// positions are the shared anchor plus the local index.
    pub open spec fn wf(self) -> bool {
        &&& forall|i: int|
            0 <= i < 4 ==> 0 <= (#[trigger] self.cells@[i]).index.x < spec_bbox_size(self.kind)
                && 0 <= self.cells@[i].index.y < spec_bbox_size(self.kind)
        &&& forall|i: int, j: int|
            0 <= i < j < 4 ==> (#[trigger] self.cells@[i]).index != (#[trigger] self.cells@[j]).index
        &&& forall|i: int|
            0 <= i < 4 ==> (#[trigger] self.cells@[i]).pos.x == self.anchor_x()
                + self.cells@[i].index.x && self.cells@[i].pos.y == self.anchor_y()
                + self.cells@[i].index.y
    }

    /// Every cell position within range of the geometry functions.
    pub open spec fn in_range(self) -> bool {
        forall|i: int| 0 <= i < 4 ==> pos_in_range((#[trigger] self.cells@[i]).pos)
    }

    /// A fresh piece of `kind`, placed at the fixed spawn offset of `grid`.
    pub fn spawn(kind: PieceKind, grid: &Grid) -> (piece: Piece)
        requires
            grid.wf(),
        ensures
            piece.kind == kind,
            piece.wf(),
            piece.in_range(),
            forall|i: int|
                0 <= i < 4 ==> piece.cells@[i] == spec_spawn_cell(kind, i, grid.height as int),
            piece.anchor_y() + spec_bbox_size(kind) == grid.height,
    {
        proof {
            lemma_offsets_in_bbox(kind);
        }
        let offsets = block_offsets(kind);
        let size = bbox_size(kind);
        let piece = Piece {
            kind,
            cells: [
                spawn_cell(offsets[0], size, grid.height),
                spawn_cell(offsets[1], size, grid.height),
                spawn_cell(offsets[2], size, grid.height),
                spawn_cell(offsets[3], size, grid.height),
            ],
        };
        piece
    }

    /// The rotation candidate: every local index turned a quarter inside the
    /// kind's bounding square, every grid position shifted by the same amount
    /// its own index moved, so the anchor stays put.  A pure candidate: the
    /// caller validates it before committing it.
    pub fn rotated(&self, clockwise: bool) -> (candidate: Piece)
        requires
            self.wf(),
            self.in_range(),
        ensures
            candidate.kind == self.kind,
            forall|i: int|
                0 <= i < 4 ==> candidate.cells@[i] == spec_rotated_cell(
                    self.cells@[i],
                    spec_bbox_size(self.kind),
                    clockwise,
                ),
            candidate.wf(),
            candidate.anchor_x() == self.anchor_x(),
            candidate.anchor_y() == self.anchor_y(),
    {
        let size = bbox_size(self.kind);
        let candidate = Piece {
            kind: self.kind,
            cells: [
                rotated_cell(self.cells[0], size, clockwise),
                rotated_cell(self.cells[1], size, clockwise),
                rotated_cell(self.cells[2], size, clockwise),
                rotated_cell(self.cells[3], size, clockwise),
            ],
        };
        proof {
            lemma_rotated_piece_wf(*self, candidate, clockwise);
        }
        candidate
    }

    /// The translation candidate: all four grid positions shifted by
    /// `(dx, dy)`, local indices untouched.  A pure candidate, like
    /// [`Piece::rotated`].
    pub fn translated(&self, dx: i32, dy: i32) -> (candidate: Piece)
        requires
            self.in_range(),
            -COORD_LIMIT < dx < COORD_LIMIT,
            -COORD_LIMIT < dy < COORD_LIMIT,
        ensures
            candidate.kind == self.kind,
            forall|i: int|
                0 <= i < 4 ==> candidate.cells@[i] == spec_translated_cell(
                    self.cells@[i],
                    dx as int,
                    dy as int,
                ),
            self.wf() ==> candidate.wf(),
            self.wf() ==> candidate.anchor_x() == self.anchor_x() + dx,
            self.wf() ==> candidate.anchor_y() == self.anchor_y() + dy,
    {
        Piece {
            kind: self.kind,
            cells: [
                translated_cell(self.cells[0], dx, dy),
                translated_cell(self.cells[1], dx, dy),
                translated_cell(self.cells[2], dx, dy),
                translated_cell(self.cells[3], dx, dy),
            ],
        }
    }
}

/// One spawned cell: local offset kept as the rotation index, grid position
/// three columns right and flush with the grid top.
fn spawn_cell(offset: Pos, size: i32, height: i32) -> (cell: CellState)
    requires
        0 <= offset.x < size,
        0 <= offset.y < size,
        size <= 4,
        0 < height <= COORD_LIMIT,
    ensures
        cell.index == offset,
        cell.pos.x == offset.x + 3,
        cell.pos.y == height - size + offset.y,
        pos_in_range(cell.pos),
{
    CellState { index: offset, pos: Pos { x: offset.x + 3, y: height - size + offset.y } }
}

/// The rotation transform on one local index, around the center of the
/// `bbox` x `bbox` square.  The index must lie inside that square: applying
/// the transform outside it is a precondition failure, never a runtime path.
pub fn rotated_index(index: Pos, bbox: i32, clockwise: bool) -> (turned: Pos)
    requires
        1 <= bbox <= 4,
        0 <= index.x < bbox,
        0 <= index.y < bbox,
    ensures
        turned == spec_rotated_index(index, bbox as int, clockwise),
        0 <= turned.x < bbox,
        0 <= turned.y < bbox,
{
    let size = bbox - 1;
    if clockwise {
        Pos { x: index.y, y: size - index.x }
    } else {
        Pos { x: size - index.y, y: index.x }
    }
}

/// One cell of the rotation candidate.
fn rotated_cell(cell: CellState, bbox: i32, clockwise: bool) -> (turned: CellState)
    requires
        1 <= bbox <= 4,
        0 <= cell.index.x < bbox,
        0 <= cell.index.y < bbox,
        pos_in_range(cell.pos),
    ensures
        turned == spec_rotated_cell(cell, bbox as int, clockwise),
{
    let index = rotated_index(cell.index, bbox, clockwise);
    CellState {
        index,
        pos: Pos {
            x: cell.pos.x + (index.x - cell.index.x),
            y: cell.pos.y + (index.y - cell.index.y),
        },
    }
}

/// One cell of the translation candidate.
fn translated_cell(cell: CellState, dx: i32, dy: i32) -> (moved: CellState)
    requires
        pos_in_range(cell.pos),
        -COORD_LIMIT < dx < COORD_LIMIT,
        -COORD_LIMIT < dy < COORD_LIMIT,
    ensures
        moved == spec_translated_cell(cell, dx as int, dy as int),
{
    CellState { index: cell.index, pos: Pos { x: cell.pos.x + dx, y: cell.pos.y + dy } }
}

/// A piece whose cells are all the quarter-turn of another well-formed
/// piece's cells is itself well-formed, around the same anchor.
proof fn lemma_rotated_piece_wf(p: Piece, q: Piece, clockwise: bool)
    requires
        p.wf(),
        p.in_range(),
        q.kind == p.kind,
        forall|i: int|
            0 <= i < 4 ==> q.cells@[i] == spec_rotated_cell(
                p.cells@[i],
                spec_bbox_size(p.kind),
                clockwise,
            ),
    ensures
        q.wf(),
        q.anchor_x() == p.anchor_x(),
        q.anchor_y() == p.anchor_y(),
{
    let b = spec_bbox_size(p.kind);
    assert forall|i: int| 0 <= i < 4 implies 0 <= (#[trigger] q.cells@[i]).index.x < b && 0
        <= q.cells@[i].index.y < b && q.cells@[i].pos.x == p.anchor_x() + q.cells@[i].index.x
        && q.cells@[i].pos.y == p.anchor_y() + q.cells@[i].index.y by {
        assert(p.cells@[i].pos.x == p.anchor_x() + p.cells@[i].index.x);
    }
    assert forall|i: int, j: int| 0 <= i < j < 4 implies (#[trigger] q.cells@[i]).index != (
    #[trigger] q.cells@[j]).index by {
        assert(p.cells@[i].index != p.cells@[j].index);
        lemma_rotated_index_injective(p.cells@[i].index, p.cells@[j].index, b, clockwise);
    }
}

/// The rotation transform never maps two distinct indices of the square to
/// the same index.
pub proof fn lemma_rotated_index_injective(a: Pos, b: Pos, bbox: int, clockwise: bool)
    requires
        0 <= a.x < bbox,
        0 <= a.y < bbox,
        0 <= b.x < bbox,
        0 <= b.y < bbox,
        bbox <= 4,
        a != b,
    ensures
        spec_rotated_index(a, bbox, clockwise) != spec_rotated_index(b, bbox, clockwise),
{
}

/// Law: rotation is a cyclic transform of order four on the local-index
/// square.  Four rotations in the same direction return a cell to exactly its
/// original local index and grid position.
pub proof fn lemma_rotate_four_times_identity(cell: CellState, bbox: int, clockwise: bool)
    requires
        1 <= bbox <= 4,
        0 <= cell.index.x < bbox,
        0 <= cell.index.y < bbox,
        pos_in_range(cell.pos),
    ensures
        spec_rotated_cell(
            spec_rotated_cell(
                spec_rotated_cell(spec_rotated_cell(cell, bbox, clockwise), bbox, clockwise),
                bbox,
                clockwise,
            ),
            bbox,
            clockwise,
        ) == cell,
{
}

/// Law: four same-direction rotations are the identity on a whole
/// well-formed piece: every cell returns to exactly its original local index
/// and grid position.
pub proof fn lemma_piece_rotation_order_four(piece: Piece, clockwise: bool)
    requires
        piece.wf(),
        piece.in_range(),
    ensures
        forall|i: int|
            0 <= i < 4 ==> spec_rotated_cell(
                spec_rotated_cell(
                    spec_rotated_cell(
                        spec_rotated_cell(
                            #[trigger] piece.cells@[i],
                            spec_bbox_size(piece.kind),
                            clockwise,
                        ),
                        spec_bbox_size(piece.kind),
                        clockwise,
                    ),
                    spec_bbox_size(piece.kind),
                    clockwise,
                ),
                spec_bbox_size(piece.kind),
                clockwise,
            ) == piece.cells@[i],
{
    assert forall|i: int| 0 <= i < 4 implies spec_rotated_cell(
        spec_rotated_cell(
            spec_rotated_cell(
                spec_rotated_cell(#[trigger] piece.cells@[i], spec_bbox_size(piece.kind), clockwise),
                spec_bbox_size(piece.kind),
                clockwise,
            ),
            spec_bbox_size(piece.kind),
            clockwise,
        ),
        spec_bbox_size(piece.kind),
        clockwise,
    ) == piece.cells@[i] by {
        lemma_rotate_four_times_identity(piece.cells@[i], spec_bbox_size(piece.kind), clockwise);
    }
}

} // verus!
