//! Tunable constants of the game core, and the unit conventions that all of
//! them follow.
//!
//! Positions along the track axis are kept in thousandths of a pixel
//! ("milli-pixels"), time in milliseconds and speed in pixels per second, so
//! that the distance a vehicle covers in one frame is exactly
//! `speed * delta_time_ms` milli-pixels, with no rounding.
use vstd::prelude::*;

verus! {

/// Width of the visible track, in milli-pixels (a 1280-pixel window).
pub const WINDOW_WIDTH: i64 = 1_280_000;

/// Shared speed at the start of a round, in pixels per second.
pub const START_GAME_SPEED: u32 = 500;

/// How much the speed-progression timer adds on each period, in pixels per
/// second.
pub const SPEED_INCREASE_VALUE: u32 = 1;

/// Period of the speed-progression timer, in milliseconds.
pub const SPEED_INCREASE_TIMING: u16 = 100;

/// The shared speed saturates here instead of growing without bound, so that
/// one frame's position arithmetic stays far away from `i64` overflow.
pub const MAX_GAME_SPEED: u32 = 1_000_000;

/// Longest frame time the simulation accepts, in milliseconds.
pub const MAX_FRAME_DELTA_MS: u32 = 600_000;

/// Numerator of the lane cool-down window: a lane counts as recently used for
/// `RECENT_GAP_NUMERATOR_MS / speed` milliseconds after a spawn, so the busier
/// (faster) the game, the shorter the enforced gap. At the starting speed the
/// window is about one second; the distance covered while it lasts is 512
/// pixels whatever the speed. A tunable constant, not a hard law.
pub const RECENT_GAP_NUMERATOR_MS: u64 = 512_000;

} // verus!
