//! A two-dimensional particle and falling-sand simulation engine.
//!
//! Positions are held in fixed point: one cell of the simulation plane is
//! divided into [`SUBCELLS`] units, and every coordinate is a signed count of
//! such units.  Time steps are whole milliseconds.  All arithmetic is exact
//! on integers and saturates at the limits of the coordinate type.

use vstd::prelude::*;

pub mod config;
pub mod math;
pub mod sim;
pub mod simulation;
pub mod utils;

verus! {

/// Width of the visible region, in cells.
pub const WIDTH: u32 = 640;

/// Height of the visible region, in cells.
pub const HEIGHT: u32 = 480;

/// Number of fixed-point units in one cell.
pub const SUBCELLS: i64 = 1000;

/// Downward acceleration applied to every particle, in units per
/// millisecond squared.
pub const GRAVITY: i64 = 1;

/// The first vertical coordinate that lies below the visible region.
pub const LOWER_BOUND: i64 = 480000;

/// Number of entries in the colour palette.
pub const PALETTE_LEN: usize = 7;

} // verus!
