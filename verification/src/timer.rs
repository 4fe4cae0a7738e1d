//! Model of the speed-progression timer: a periodic background activity that
//! increments the shared speed while the round is running.
//!
//! The real timer runs on its own thread, outside collaborator territory; the
//! decisions it takes each cycle live here. `Timer` is the state the thread's
//! lifecycle moves through: `start` and `stop` switch it, and one period of
//! the background loop is a `tick`, which mutates the shared speed only while
//! the timer runs. Stopping is synchronous — the stopping caller blocks until
//! the background activity has exited — so a tick after `stop` is a no-op and
//! a read right after `stop` sees no late increment
//! ([`lemma_no_increment_after_stop`]).
use vstd::prelude::*;

use crate::config::{MAX_GAME_SPEED, SPEED_INCREASE_VALUE};

verus! {

/// The shared state a timer mutates on each cycle: the game speed, in pixels
/// per second.
#[derive(Clone, Copy, PartialEq, Eq, Structural, Debug)]
pub enum TimerData {
    GameSpeed { speed: u32 },
}

/// One increment of the shared speed, saturating at the cap.
pub open spec fn spec_speed_up(timer_data: TimerData) -> TimerData {
    match timer_data {
        TimerData::GameSpeed { speed } => TimerData::GameSpeed {
            speed: if speed + SPEED_INCREASE_VALUE > MAX_GAME_SPEED {
                MAX_GAME_SPEED
            } else {
                (speed + SPEED_INCREASE_VALUE) as u32
            },
        },
    }
}

/// The timer's callback: adds the fixed step to the shared speed, saturating
/// at the cap so the position arithmetic of one frame can never overflow.
pub fn speed_up(timer_data: &mut TimerData)
    ensures
        *final(timer_data) == spec_speed_up(*old(timer_data)),
{
    match timer_data {
        TimerData::GameSpeed { speed } => {
            if *speed < MAX_GAME_SPEED - SPEED_INCREASE_VALUE + 1 {
                *speed = *speed + SPEED_INCREASE_VALUE;
            } else {
                *speed = MAX_GAME_SPEED;
            }
        },
    }
}

/// The lifecycle state of the periodic background activity.
#[derive(Clone, Copy, PartialEq, Eq, Structural, Debug)]
pub struct Timer {
    pub running: bool,
    pub delay_ms: u16,
    pub timer_data: TimerData,
}

/// A stopped timer, with its shared state untouched.
pub open spec fn spec_stop(t: Timer) -> Timer {
    Timer { running: false, ..t }
}

/// One period of the background loop: the callback fires only while the
/// timer runs.
pub open spec fn spec_tick(t: Timer) -> Timer {
    if t.running {
        Timer { timer_data: spec_speed_up(t.timer_data), ..t }
    } else {
        t
    }
}

impl Timer {
    /// A timer over `timer_data`, not yet started.
    pub fn new(timer_data: TimerData) -> (r: Timer)
        ensures
            r == (Timer { running: false, delay_ms: 0, timer_data }),
    {
        Timer { running: false, delay_ms: 0, timer_data }
    }

    /// Starts the periodic activity with the given period.
    pub fn start(&mut self, delay_ms: u16)
        ensures
            *final(self) == (Timer { running: true, delay_ms, timer_data: old(self).timer_data }),
    {
        self.running = true;
        self.delay_ms = delay_ms;
    }

    /// Stops the periodic activity. Synchronous: once this returns, no
    /// further tick mutates the shared state.
    pub fn stop(&mut self)
        ensures
            *final(self) == spec_stop(*old(self)),
    {
        self.running = false;
    }

    /// One period of the background loop.
    pub fn tick(&mut self)
        ensures
            *final(self) == spec_tick(*old(self)),
    {
        if self.running {
            speed_up(&mut self.timer_data);
        }
    }
}

/// Stopping the timer is synchronous: a tick arriving after `stop` leaves the
/// shared state exactly as `stop` left it, so reading the shared speed right
/// after stopping returns a value unchanged by any in-flight increment.
pub proof fn lemma_no_increment_after_stop(t: Timer)
    ensures
        spec_tick(spec_stop(t)) == spec_stop(t),
{
}

/// The self-correcting schedule of the timer loop: each cycle sleeps the
/// period shortened by the wall-clock cost of the last mutation and callback,
/// and never a negative span, keeping the long-run cadence accurate.
pub fn remaining_delay_ms(delay_ms: u64, execution_ms: u64) -> (r: u64)
    ensures
        r == if execution_ms <= delay_ms {
            delay_ms - execution_ms
        } else {
            0
        },
{
    if execution_ms <= delay_ms {
        delay_ms - execution_ms
    } else {
        0
    }
}

} // verus!
