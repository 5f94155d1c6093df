//! Core simulation of a side-scrolling flapping-bird arcade game.
//!
//! All quantities are integers in fixed units, so that every tick of the
//! simulation is exact and reproducible:
//! - lengths and positions are in micropixels (see [`PIXEL`]),
//! - velocities are in millipixels per second (see [`PIXEL_PER_SECOND`]),
//! - durations are in milliseconds.
//!
//! With these units a velocity multiplied by a duration is a length, and an
//! acceleration in pixels per second squared multiplied by a duration is a
//! velocity, so integration needs no division.
use vstd::prelude::*;

pub mod background;
pub mod bird;
pub mod checkpoint;
pub mod collision;
pub mod ground;
pub mod layer;
pub mod pipe;
pub mod score;
pub mod state;
pub mod world;

verus! {

/// One pixel, in micropixels.
pub const PIXEL: i64 = 1_000_000;

/// One pixel per second, in millipixels per second.
pub const PIXEL_PER_SECOND: i64 = 1_000;

/// Half the width of the visible area, whose center is the origin.
pub const HALF_WIDTH: i64 = 90 * PIXEL;

/// Half the height of the visible area.
pub const HALF_HEIGHT: i64 = 180 * PIXEL;

/// Speed at which obstacles and scenery scroll to the left.
pub const GAME_SPEED: i64 = 100 * PIXEL_PER_SECOND;

} // verus!
