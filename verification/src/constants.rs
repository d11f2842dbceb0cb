//! The size of the screen that the game was laid out for, and its pace.

use vstd::prelude::*;

verus! {

/// The screen is a grid of this many cells each way.
pub const GRID_SIZE: u32 = 100;

/// The side of a grid cell, in arena units.
pub const GRID_CELL_DIM: u32 = 10;

/// The width and the height of the screen, in arena units.
pub const SCREEN_SIZE: u32 = GRID_SIZE * GRID_CELL_DIM;

pub const FRAMES_PER_SECOND: u64 = 60;

pub const MILLIS_PER_FRAME: u64 = 1_000 / FRAMES_PER_SECOND;

} // verus!
