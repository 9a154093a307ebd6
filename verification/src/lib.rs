//! Rule engine for a falling-block puzzle game.
//!
//! The library keeps a fixed-size grid, advances a single controlled piece
//! through translation and rotation, detects collisions against the settled
//! heap and the grid bounds, and commits a piece to the heap when a plain
//! move can no longer succeed.

pub mod clock;
pub mod game;
pub mod grid;
pub mod heap;
pub mod piece;
pub mod pos;
pub mod rng;
pub mod shape;

use vstd::prelude::*;

verus! {

/// Side length of one rendered block, in pixels; used by front ends to map
/// grid coordinates to screen coordinates.
pub const BLOCK_SIZE_PIXELS: u32 = 25;

} // verus!
