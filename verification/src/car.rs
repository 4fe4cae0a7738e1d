//! The two vehicle kinds: the player's car, which only changes lane, and the
//! bot cars, which travel toward the player along the track axis.
//!
//! A vehicle's body is the closed interval of track positions it occupies;
//! the collision test is an interval-intersection test. The boundary rule is
//! fixed here once: an interval that exactly touches the player's body does
//! NOT count as colliding (both comparisons are strict), and the returned
//! collision point is the midpoint of the overlapping span.
use vstd::prelude::*;

use crate::config::{MAX_FRAME_DELTA_MS, MAX_GAME_SPEED, WINDOW_WIDTH};

verus! {

/// Length of a car body along the track axis, in milli-pixels. Both the
/// player's body and a bot's body span this length in the collision test.
pub const PLAYER_CAR_WIDTH: i64 = 155_000;

/// Width of a bot car's sprite, in milli-pixels; a bot is gone for good once
/// it is this far past the left edge of the track.
pub const BOT_CAR_WIDTH: i64 = 140_000;

/// The player's fixed position along the track axis (its trailing edge), in
/// milli-pixels: a quarter of the window from the left.
pub const PLAYER_CAR_X_POSITION: i64 = 320_000;

/// One of the three fixed horizontal tracks a vehicle occupies.
#[derive(Clone, Copy, PartialEq, Eq, Structural, Hash, Debug)]
pub enum Way {
    Upper,
    Center,
    Lower,
}

/// The player-controlled vehicle: it changes lane on validated input and
/// never moves along the track axis.
#[derive(Clone, Copy, PartialEq, Eq, Structural, Debug)]
pub struct PlayerCar {
    pub way: Way,
}

impl PlayerCar {
    /// A fresh player car, starting in the center lane.
    pub fn new() -> (r: PlayerCar)
        ensures
            r.way == Way::Center,
    {
        PlayerCar { way: Way::Center }
    }

    pub fn set_way(&mut self, way: Way)
        ensures
            final(self).way == way,
    {
        self.way = way;
    }

    pub fn get_way(&self) -> (r: Way)
        ensures
            r == self.way,
    {
        self.way
    }
}

/// A non-player vehicle: a lane fixed for its lifetime, a trailing-edge
/// position along the track axis in milli-pixels that decreases over time,
/// a speed snapshot in pixels per second, and the handle of the sprite the
/// renderer shows for it.
#[derive(Clone, Copy, PartialEq, Eq, Structural, Debug)]
pub struct BotCar {
    pub way: Way,
    pub x_position: i64,
    pub speed: u32,
    pub texture_id: usize,
}

/// Positions and speeds at which one frame's kinematics stay well inside
/// `i64`: the car is on or near the track and the speed is capped.
pub open spec fn spec_bot_in_bounds(b: BotCar) -> bool {
    &&& b.speed <= MAX_GAME_SPEED
    &&& -(WINDOW_WIDTH + BOT_CAR_WIDTH) <= b.x_position <= WINDOW_WIDTH
}

/// The wider range a bot can reach in the middle of a frame, after advancing
/// but before the off-track ones are evicted: at most one frame's travel
/// below the resting range. Still far inside `i64`.
pub open spec fn spec_bot_in_flight(b: BotCar) -> bool {
    &&& b.speed <= MAX_GAME_SPEED
    &&& -(WINDOW_WIDTH + BOT_CAR_WIDTH) - (MAX_GAME_SPEED as int) * (MAX_FRAME_DELTA_MS as int)
        <= b.x_position <= WINDOW_WIDTH
}

/// Where a bot stands after `delta_time_ms` milliseconds: position decreased
/// by `speed * delta_time_ms` milli-pixels, everything else kept.
pub open spec fn spec_update_position(b: BotCar, delta_time_ms: u32) -> BotCar {
    BotCar { x_position: (b.x_position - b.speed * delta_time_ms) as i64, ..b }
}

/// The interval-intersection test: the bot's body `[x, x + width]` strictly
/// overlaps the player's body. Exact touching at either edge is not a
/// collision.
pub open spec fn spec_is_colliding(b: BotCar, player: PlayerCar) -> bool {
    &&& b.way == player.way
    &&& b.x_position + PLAYER_CAR_WIDTH > PLAYER_CAR_X_POSITION
    &&& PLAYER_CAR_X_POSITION + PLAYER_CAR_WIDTH > b.x_position
}

/// The midpoint of the overlapping span of the two bodies, for display.
pub open spec fn spec_collision_point(b: BotCar) -> int {
    let overlap_back = if b.x_position > PLAYER_CAR_X_POSITION {
        b.x_position as int
    } else {
        PLAYER_CAR_X_POSITION as int
    };
    let overlap_front = if b.x_position + PLAYER_CAR_WIDTH < PLAYER_CAR_X_POSITION
        + PLAYER_CAR_WIDTH {
        b.x_position + PLAYER_CAR_WIDTH
    } else {
        PLAYER_CAR_X_POSITION + PLAYER_CAR_WIDTH
    };
    overlap_back + (overlap_front - overlap_back) / 2
}

/// A bot is gone once its position is a full sprite width past the left edge
/// of the track: from there it can never again be visible or collide.
pub open spec fn spec_is_out_of_screen(b: BotCar) -> bool {
    b.x_position < -(WINDOW_WIDTH + BOT_CAR_WIDTH)
}

impl BotCar {
    /// A fresh bot entering `way` at the right edge of the track, standing
    /// still until the first frame hands it the shared speed.
    pub fn new(way: Way, texture_id: usize) -> (r: BotCar)
        ensures
            r == (BotCar { way, x_position: WINDOW_WIDTH, speed: 0, texture_id }),
    {
        BotCar { way, x_position: WINDOW_WIDTH, speed: 0, texture_id }
    }

    /// Moves the bot toward the player by `speed * delta_time_ms`
    /// milli-pixels.
    pub fn update_position(&mut self, delta_time_ms: u32)
        requires
            spec_bot_in_bounds(*old(self)),
            delta_time_ms <= MAX_FRAME_DELTA_MS,
        ensures
            *final(self) == spec_update_position(*old(self), delta_time_ms),
            spec_bot_in_flight(*final(self)),
    {
        proof {
            assert((self.speed as int) * (delta_time_ms as int) <= (MAX_GAME_SPEED as int) * (
            MAX_FRAME_DELTA_MS as int)) by (nonlinear_arith)
                requires
                    self.speed <= MAX_GAME_SPEED,
                    delta_time_ms <= MAX_FRAME_DELTA_MS,
            ;
            assert((self.speed as int) * (delta_time_ms as int) >= 0) by (nonlinear_arith);
        }
        self.x_position = self.x_position - (self.speed as i64) * (delta_time_ms as i64);
    }

    /// Whether the bot has left the track for good.
    pub fn is_out_of_screen(&self) -> (r: bool)
        ensures
            r == spec_is_out_of_screen(*self),
    {
        self.x_position < -(WINDOW_WIDTH + BOT_CAR_WIDTH)
    }

    /// The collision test against the player: `Some((lane, point))` exactly
    /// when the two bodies share the lane and strictly overlap, where `point`
    /// is the midpoint of the overlapping span.
    pub fn is_colliding(&self, player_car: &PlayerCar) -> (r: Option<(Way, i64)>)
        requires
            spec_bot_in_flight(*self),
        ensures
            r is Some <==> spec_is_colliding(*self, *player_car),
            r matches Some((way, point)) ==> way == self.way && point
                == spec_collision_point(*self),
    {
        if player_car.get_way() == self.way {
            let bot_car_back_x = self.x_position;
            let bot_car_front_x = self.x_position + PLAYER_CAR_WIDTH;
            let player_car_back_x = PLAYER_CAR_X_POSITION;
            let player_car_front_x = PLAYER_CAR_X_POSITION + PLAYER_CAR_WIDTH;
            if !(bot_car_front_x <= player_car_back_x || player_car_front_x <= bot_car_back_x) {
                let overlap_back = if bot_car_back_x > player_car_back_x {
                    bot_car_back_x
                } else {
                    player_car_back_x
                };
                let overlap_front = if bot_car_front_x < player_car_front_x {
                    bot_car_front_x
                } else {
                    player_car_front_x
                };
                Some((self.way, overlap_back + (overlap_front - overlap_back) / 2))
            } else {
                None
            }
        } else {
            None
        }
    }

    /// Takes a fresh snapshot of the shared speed.
    pub fn set_speed(&mut self, speed: u32)
        ensures
            *final(self) == (BotCar { speed, ..*old(self) }),
    {
        self.speed = speed;
    }

    pub fn get_way(&self) -> (r: Way)
        ensures
            r == self.way,
    {
        self.way
    }
}

/// The boundary rule of the collision test, fixed in one place: a bot whose
/// body exactly touches the player's body at either edge — its leading edge
/// on the player's trailing edge, or its trailing edge under the player's
/// leading edge — is not colliding, even in the player's lane.
pub proof fn lemma_touching_is_not_collision(b: BotCar, player: PlayerCar)
    requires
        b.x_position + PLAYER_CAR_WIDTH == PLAYER_CAR_X_POSITION || b.x_position
            == PLAYER_CAR_X_POSITION + PLAYER_CAR_WIDTH,
    ensures
        !spec_is_colliding(b, player),
{
}

} // verus!
