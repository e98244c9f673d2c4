//! Fixed parameters of the simulation: the grid dimensions, the pace of
//! the pursuit ticks, and how long a dead manager stays on the board.

use vstd::prelude::*;

verus! {

/// Number of grid cells along the x axis.
pub const X_CELL_COUNT: i32 = 12;

/// Number of grid cells along the y axis.
pub const Y_CELL_COUNT: i32 = 6;

/// A manager that has been dead for longer than this is removed from the
/// board. Time is measured in microseconds of a monotonic clock.
pub const MANAGER_DESPAWN_MICROS: u64 = 3_000_000;

/// A simulation tick runs once the elapsed time since the previous tick
/// exceeds this interval, in microseconds.
pub const MOVE_INTERVAL_MICROS: u64 = 250_000;

} // verus!
