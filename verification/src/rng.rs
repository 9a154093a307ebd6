use vstd::prelude::*;
use crate::shape::{PieceKind, kind_from_index};

verus! {

/// Relies on `rand::random_range` over `0..7`: a draw from a non-empty
/// integer range returns a value inside the range, uniformly.  Nothing more
/// can be promised of a random draw; callers treat every value below seven as
/// possible.
#[verifier::external_body]
fn draw_kind_index() -> (index: u8)
    ensures
        index < 7,
{
    rand::random_range(0..7u8)
}

/// A piece kind drawn with uniform probability one seventh, independently on
/// each call.  The distribution itself is a property of the random source and
/// is not expressible as a contract; the verified part is the total mapping
/// from the drawn index to a kind.
pub fn next_kind() -> (kind: PieceKind) {
    kind_from_index(draw_kind_index())
}

} // verus!
