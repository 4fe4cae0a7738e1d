//! The scrolling road: a texture that slides left at a fraction of the game
//! speed and wraps around to produce a continuous loop.
//!
//! Only the kinematics live here; drawing the texture at the resulting
//! position is the renderer's job.
use vstd::prelude::*;

use crate::config::{MAX_FRAME_DELTA_MS, MAX_GAME_SPEED, WINDOW_WIDTH};

verus! {

/// Scroll speed of the road before the first round starts, in pixels per
/// second.
pub const BACKGROUND_START_SPEED: u32 = 300;

/// The road's horizontal offset in milli-pixels — always in `[-WINDOW_WIDTH,
/// 0]` — and its scroll speed in pixels per second.
#[derive(Clone, Copy, PartialEq, Eq, Structural, Debug)]
pub struct Background {
    pub x_position: i64,
    pub speed: u32,
}

impl Background {
    /// The offset stays within one window width and the speed under the cap,
    /// so one frame's arithmetic stays well inside `i64`.
    pub open spec fn wf(self) -> bool {
        &&& -WINDOW_WIDTH <= self.x_position <= 0
        &&& self.speed <= MAX_GAME_SPEED
    }

    /// The road after one frame: slid left by `speed * delta_time_ms`
    /// milli-pixels, and snapped back to the origin once a full window width
    /// has scrolled past.
    pub open spec fn spec_moved(self, delta_time_ms: u32) -> Background {
        let slid = self.x_position - self.speed * delta_time_ms;
        Background {
            x_position: if slid < -WINDOW_WIDTH {
                0
            } else {
                slid as i64
            },
            ..self
        }
    }

    /// A road at the origin, scrolling at the menu speed.
    pub fn new() -> (r: Background)
        ensures
            r == (Background { x_position: 0, speed: BACKGROUND_START_SPEED }),
            r.wf(),
    {
        Background { x_position: 0, speed: BACKGROUND_START_SPEED }
    }

    /// Slides the road by one frame, wrapping for the continuous-loop effect.
    pub fn move_texture(&mut self, delta_time_ms: u32)
        requires
            old(self).wf(),
            delta_time_ms <= MAX_FRAME_DELTA_MS,
        ensures
            *final(self) == old(self).spec_moved(delta_time_ms),
            final(self).wf(),
    {
        proof {
            assert((self.speed as int) * (delta_time_ms as int) <= (MAX_GAME_SPEED as int) * (
            MAX_FRAME_DELTA_MS as int)) by (nonlinear_arith)
                requires
                    self.speed <= MAX_GAME_SPEED,
                    delta_time_ms <= MAX_FRAME_DELTA_MS,
            ;
            assert((self.speed as int) * (delta_time_ms as int) >= 0) by (nonlinear_arith);
        }
        self.x_position = self.x_position - (self.speed as i64) * (delta_time_ms as i64);
        if self.x_position < -WINDOW_WIDTH {
            self.x_position = 0;
        }
    }

    /// Retunes the scroll speed, kept at 80% of the shared game speed while a
    /// round runs.
    pub fn set_speed(&mut self, speed: u32)
        requires
            speed <= MAX_GAME_SPEED,
        ensures
            *final(self) == (Background { speed, ..*old(self) }),
    {
        self.speed = speed;
    }
}

} // verus!
