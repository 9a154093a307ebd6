use vstd::prelude::*;

verus! {

/// A grid-local cell position: origin at the bottom-left corner, `x` growing
/// rightward and `y` growing upward.
///
/// The type itself carries no bounds; whether a position is acceptable is
/// judged by the collision resolver and the controller's clamp step.
#[derive(Clone, Copy, PartialEq, Eq, Structural, Debug)]
pub struct Pos {
    pub x: i32,
    pub y: i32,
}

} // verus!
