use vstd::prelude::*;
use crate::pos::Pos;

verus! {

/// The closed enumeration of the seven piece kinds.
#[derive(Clone, Copy, PartialEq, Eq, Structural, Debug)]
pub enum PieceKind {
    I,
    O,
    T,
    S,
    Z,
    L,
    J,
}

/// A display color, each channel in thousandths (0 through 1000).
#[derive(Clone, Copy, PartialEq, Eq, Structural, Debug)]
pub struct Rgb {
    pub red: u16,
    pub green: u16,
    pub blue: u16,
}

/// Side length of the square local-index space a kind rotates in.
pub open spec fn spec_bbox_size(kind: PieceKind) -> int {
    match kind {
        PieceKind::I => 4,
        PieceKind::O => 4,
        _ => 3,
    }
}

/// The four local cell offsets of a kind, inside its bounding square.
pub open spec fn spec_offsets(kind: PieceKind) -> Seq<Pos> {
    match kind {
        PieceKind::I => seq![
            Pos { x: 1, y: 3 },
            Pos { x: 1, y: 2 },
            Pos { x: 1, y: 1 },
            Pos { x: 1, y: 0 },
        ],
        PieceKind::O => seq![
            Pos { x: 1, y: 1 },
            Pos { x: 1, y: 2 },
            Pos { x: 2, y: 1 },
            Pos { x: 2, y: 2 },
        ],
        PieceKind::T => seq![
            Pos { x: 0, y: 1 },
            Pos { x: 1, y: 1 },
            Pos { x: 2, y: 1 },
            Pos { x: 1, y: 2 },
        ],
        PieceKind::S => seq![
            Pos { x: 0, y: 2 },
            Pos { x: 1, y: 2 },
            Pos { x: 1, y: 1 },
            Pos { x: 2, y: 1 },
        ],
        PieceKind::Z => seq![
            Pos { x: 2, y: 2 },
            Pos { x: 1, y: 2 },
            Pos { x: 1, y: 1 },
            Pos { x: 0, y: 1 },
        ],
        PieceKind::L => seq![
            Pos { x: 0, y: 2 },
            Pos { x: 0, y: 1 },
            Pos { x: 1, y: 1 },
            Pos { x: 2, y: 1 },
        ],
        PieceKind::J => seq![
            Pos { x: 0, y: 1 },
            Pos { x: 1, y: 1 },
            Pos { x: 2, y: 1 },
            Pos { x: 2, y: 2 },
        ],
    }
}

/// The display color of a kind.
pub open spec fn spec_kind_color(kind: PieceKind) -> Rgb {
    match kind {
        PieceKind::I => Rgb { red: 0, green: 700, blue: 700 },
        PieceKind::O => Rgb { red: 700, green: 700, blue: 0 },
        PieceKind::T => Rgb { red: 700, green: 0, blue: 700 },
        PieceKind::S => Rgb { red: 700, green: 0, blue: 0 },
        PieceKind::Z => Rgb { red: 0, green: 700, blue: 0 },
        PieceKind::L => Rgb { red: 0, green: 0, blue: 700 },
        PieceKind::J => Rgb { red: 900, green: 250, blue: 0 },
    }
}

/// The kind a zero-based index (below seven) stands for; any larger index
/// falls back to the last kind.
pub open spec fn spec_kind_from_index(index: int) -> PieceKind {
    if index == 0 {
        PieceKind::I
    } else if index == 1 {
        PieceKind::O
    } else if index == 2 {
        PieceKind::T
    } else if index == 3 {
        PieceKind::S
    } else if index == 4 {
        PieceKind::Z
    } else if index == 5 {
        PieceKind::L
    } else {
        PieceKind::J
    }
}

/// Side length of the local-index square the rotation transform operates in:
/// four for `I` and `O`, three for every other kind.
pub fn bbox_size(kind: PieceKind) -> (size: i32)
    ensures
        size == spec_bbox_size(kind),
{
    match kind {
        PieceKind::I => 4,
        PieceKind::O => 4,
        _ => 3,
    }
}

/// The kind's four local cell offsets, as the shape table lists them.
pub fn block_offsets(kind: PieceKind) -> (offsets: [Pos; 4])
    ensures
        offsets@ == spec_offsets(kind),
{
    let offsets: [Pos; 4] = match kind {
        PieceKind::I => [
            Pos { x: 1, y: 3 },
            Pos { x: 1, y: 2 },
            Pos { x: 1, y: 1 },
            Pos { x: 1, y: 0 },
        ],
        PieceKind::O => [
            Pos { x: 1, y: 1 },
            Pos { x: 1, y: 2 },
            Pos { x: 2, y: 1 },
            Pos { x: 2, y: 2 },
        ],
        PieceKind::T => [
            Pos { x: 0, y: 1 },
            Pos { x: 1, y: 1 },
            Pos { x: 2, y: 1 },
            Pos { x: 1, y: 2 },
        ],
        PieceKind::S => [
            Pos { x: 0, y: 2 },
            Pos { x: 1, y: 2 },
            Pos { x: 1, y: 1 },
            Pos { x: 2, y: 1 },
        ],
        PieceKind::Z => [
            Pos { x: 2, y: 2 },
            Pos { x: 1, y: 2 },
            Pos { x: 1, y: 1 },
            Pos { x: 0, y: 1 },
        ],
        PieceKind::L => [
            Pos { x: 0, y: 2 },
            Pos { x: 0, y: 1 },
            Pos { x: 1, y: 1 },
            Pos { x: 2, y: 1 },
        ],
        PieceKind::J => [
            Pos { x: 0, y: 1 },
            Pos { x: 1, y: 1 },
            Pos { x: 2, y: 1 },
            Pos { x: 2, y: 2 },
        ],
    };
    proof {
        assert(offsets@ =~= spec_offsets(kind));
    }
    offsets
}

/// The display color of a kind, channels in thousandths.
pub fn kind_color(kind: PieceKind) -> (color: Rgb)
    ensures
        color == spec_kind_color(kind),
{
    match kind {
        PieceKind::I => Rgb { red: 0, green: 700, blue: 700 },
        PieceKind::O => Rgb { red: 700, green: 700, blue: 0 },
        PieceKind::T => Rgb { red: 700, green: 0, blue: 700 },
        PieceKind::S => Rgb { red: 700, green: 0, blue: 0 },
        PieceKind::Z => Rgb { red: 0, green: 700, blue: 0 },
        PieceKind::L => Rgb { red: 0, green: 0, blue: 700 },
        PieceKind::J => Rgb { red: 900, green: 250, blue: 0 },
    }
}

/// The kind a random draw below seven selects.
pub fn kind_from_index(index: u8) -> (kind: PieceKind)
    ensures
        kind == spec_kind_from_index(index as int),
{
    match index {
        0 => PieceKind::I,
        1 => PieceKind::O,
        2 => PieceKind::T,
        3 => PieceKind::S,
        4 => PieceKind::Z,
        5 => PieceKind::L,
        _ => PieceKind::J,
    }
}

/// Every local offset a kind lists lies inside the kind's bounding square —
/// in fact no kind uses a column right of the third one — and no two of the
/// four offsets coincide.
pub proof fn lemma_offsets_in_bbox(kind: PieceKind)
    ensures
        spec_offsets(kind).len() == 4,
        forall|i: int|
            0 <= i < 4 ==> 0 <= (#[trigger] spec_offsets(kind)[i]).x < spec_bbox_size(kind)
                && 0 <= spec_offsets(kind)[i].y < spec_bbox_size(kind) && spec_offsets(kind)[i].x
                <= 2,
        forall|i: int, j: int|
            0 <= i < j < 4 ==> (#[trigger] spec_offsets(kind)[i]) != (#[trigger] spec_offsets(
                kind,
            )[j]),
{
}

} // verus!
