//! Traffic motion core for a four-way intersection laid out on a tile grid.
//!
//! Positions, speeds and times are integers: one pixel is a million position
//! units, time is counted in milliseconds and speed in position units per
//! millisecond, so a tick of `dt` milliseconds at speed `s` covers exactly
//! `s * dt` units.

pub mod geometry;
pub mod lanes;
pub mod layout;
pub mod motion_laws;
pub mod path;
pub mod regulator;
pub mod stats;
pub mod traffic;
pub mod vehicle;
