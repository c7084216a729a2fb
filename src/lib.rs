use vstd::prelude::*;

pub mod obstacle;
pub mod player;
pub mod random;
pub mod state;

verus! {

/// Width of the play field, in cells.
pub const SCREEN_WIDTH: i32 = 80;

/// Height of the play field, in cells.
pub const SCREEN_HEIGHT: i32 = 50;

/// Vertical positions and velocities are kept in fixed point: this many units make one cell.
pub const SUBCELLS: i32 = 10;

/// Length of one physics step, in microseconds.
pub const FRAME_DURATION_US: u64 = 75_000;

} // verus!
