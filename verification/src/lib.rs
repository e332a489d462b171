//! A single-intersection traffic simulation: vehicles spawn from four
//! approaches, drive toward the central crossing on integer coordinates,
//! obey a cyclic traffic-light schedule, and turn or go straight before
//! leaving the visible area.
//!
//! All positions are in grid units: one screen pixel is two units, so that
//! every layout constant (including the minimum gap of 1.75 intersection
//! cells) is a whole number and every check is exact integer arithmetic.
//! Time is counted in ticks of a tenth of a time-unit, for the same reason.

pub mod controller;
pub mod geometry;
pub mod scheduler;
pub mod signal;
pub mod spawner;
pub mod vehicle;
pub mod world;
