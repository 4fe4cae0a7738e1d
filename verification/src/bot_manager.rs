//! The traffic spawner and the set of active bot cars.
//!
//! Once per simulation tick the spawner picks one of the three lanes at
//! random and introduces a bot there if the lane is judged free. Freeness is
//! the one non-trivial rule: an empty track is always free; a lane that was
//! itself used recently is never free; otherwise the lane's neighbors decide
//! — an edge lane is free when the center lane was not used recently, and the
//! center lane is free unless both edge lanes were used recently.
//!
//! A lane counts as recently used for a speed-scaled cool-down window after a
//! spawn: the faster the game, the shorter the enforced gap.
use vstd::prelude::*;

use crate::car::{spec_bot_in_bounds, spec_bot_in_flight, spec_collision_point,
    spec_is_colliding, spec_is_out_of_screen, spec_update_position, BotCar, PlayerCar, Way};
use crate::config::{MAX_FRAME_DELTA_MS, MAX_GAME_SPEED, RECENT_GAP_NUMERATOR_MS, WINDOW_WIDTH};
use rand::Rng;

verus! {

/// One fixed track, with its per-lane bookkeeping: when a bot was last
/// introduced into it, if ever.
#[derive(Clone, Copy, PartialEq, Eq, Structural, Debug)]
pub struct Lane {
    pub way: Way,
    pub last_spawn_time: Option<u64>,
}

/// The ordered position of each lane, top to bottom.
pub open spec fn spec_lane_index(way: Way) -> int {
    match way {
        Way::Upper => 0,
        Way::Center => 1,
        Way::Lower => 2,
    }
}

/// The lane at each ordered position.
pub open spec fn spec_way_of_index(i: int) -> Way {
    if i == 0 {
        Way::Upper
    } else if i == 1 {
        Way::Center
    } else {
        Way::Lower
    }
}

/// How long a lane stays recently used after a spawn, in milliseconds:
/// inversely proportional to the current speed, so that the gap it enforces
/// covers the same distance of track at every speed.
pub open spec fn spec_recent_window_ms(current_speed: u32) -> int {
    RECENT_GAP_NUMERATOR_MS as int / current_speed as int
}

/// The lanes are the fixed ordered triple, and any recorded spawn time lies
/// in the past of `now_ms`.
pub open spec fn spec_lanes_wf(lanes: Seq<Lane>, now_ms: u64) -> bool {
    &&& lanes.len() == 3
    &&& forall|i: int| 0 <= i < 3 ==> (#[trigger] lanes[i]).way == spec_way_of_index(i)
    &&& forall|i: int|
        0 <= i < 3 ==> ((#[trigger] lanes[i]).last_spawn_time matches Some(t) ==> t <= now_ms)
}

/// Every active bot is on or near the track, with a capped speed.
pub open spec fn spec_bots_wf(bots: Seq<BotCar>) -> bool {
    forall|i: int| 0 <= i < bots.len() ==> spec_bot_in_bounds(#[trigger] bots[i])
}

/// Every bot of a mid-frame fleet is within one frame's travel of the track.
pub open spec fn spec_bot_in_flight_all(bots: Seq<BotCar>) -> bool {
    forall|i: int| 0 <= i < bots.len() ==> spec_bot_in_flight(#[trigger] bots[i])
}

/// Whether `way` was used within the speed-scaled cool-down window ending at
/// `now_ms`. A lane that never saw a spawn was never recently used.
pub open spec fn spec_recently_used(
    lanes: Seq<Lane>,
    way: Way,
    now_ms: u64,
    current_speed: u32,
) -> bool {
    match lanes[spec_lane_index(way)].last_spawn_time {
        Some(t) => now_ms < t + spec_recent_window_ms(current_speed),
        None => false,
    }
}

/// The freeness rule. An empty track is free everywhere; a recently used
/// lane is not free; otherwise the neighbors decide: an edge lane is free
/// when the center was not recently used, the center is free unless both
/// edges were.
pub open spec fn spec_lane_free(
    bots: Seq<BotCar>,
    lanes: Seq<Lane>,
    way: Way,
    now_ms: u64,
    current_speed: u32,
) -> bool {
    if bots.len() == 0 {
        true
    } else if spec_recently_used(lanes, way, now_ms, current_speed) {
        false
    } else {
        match way {
            Way::Upper => !spec_recently_used(lanes, Way::Center, now_ms, current_speed),
            Way::Lower => !spec_recently_used(lanes, Way::Center, now_ms, current_speed),
            Way::Center => !(spec_recently_used(lanes, Way::Upper, now_ms, current_speed)
                && spec_recently_used(lanes, Way::Lower, now_ms, current_speed)),
        }
    }
}

/// The spawner's state: the active bot cars and the three lanes with their
/// bookkeeping.
pub struct BotManager {
    pub bot_car_list: Vec<BotCar>,
    pub lanes: Vec<Lane>,
}

impl BotManager {
    pub open spec fn wf(self, now_ms: u64) -> bool {
        spec_lanes_wf(self.lanes@, now_ms) && spec_bots_wf(self.bot_car_list@)
    }

    /// A fresh spawner: no bots, three lanes never used.
    pub fn new() -> (r: BotManager)
        ensures
            r.bot_car_list@.len() == 0,
            r.lanes@ =~= seq![
                Lane { way: Way::Upper, last_spawn_time: None },
                Lane { way: Way::Center, last_spawn_time: None },
                Lane { way: Way::Lower, last_spawn_time: None },
            ],
    {
        let mut lanes: Vec<Lane> = Vec::new();
        lanes.push(Lane { way: Way::Upper, last_spawn_time: None });
        lanes.push(Lane { way: Way::Center, last_spawn_time: None });
        lanes.push(Lane { way: Way::Lower, last_spawn_time: None });
        BotManager { bot_car_list: Vec::new(), lanes }
    }

    /// Whether `way` was used within the current cool-down window.
    pub fn is_lane_recently_used(&self, way: Way, now_ms: u64, current_speed: u32) -> (r: bool)
        requires
            spec_lanes_wf(self.lanes@, now_ms),
            1 <= current_speed,
        ensures
            r == spec_recently_used(self.lanes@, way, now_ms, current_speed),
    {
        let idx = lane_index(way);
        let window_ms: u64 = RECENT_GAP_NUMERATOR_MS / (current_speed as u64);
        match self.lanes[idx].last_spawn_time {
            Some(t) => now_ms - t < window_ms,
            None => false,
        }
    }

    /// Applies the freeness rule to `way`.
    pub fn is_lane_free(&self, way: Way, now_ms: u64, current_speed: u32) -> (r: bool)
        requires
            spec_lanes_wf(self.lanes@, now_ms),
            1 <= current_speed,
        ensures
            r == spec_lane_free(self.bot_car_list@, self.lanes@, way, now_ms, current_speed),
    {
        if self.bot_car_list.is_empty() {
            true
        } else if self.is_lane_recently_used(way, now_ms, current_speed) {
            false
        } else {
            match way {
                Way::Upper => !self.is_lane_recently_used(Way::Center, now_ms, current_speed),
                Way::Lower => !self.is_lane_recently_used(Way::Center, now_ms, current_speed),
                Way::Center => !(self.is_lane_recently_used(Way::Upper, now_ms, current_speed)
                    && self.is_lane_recently_used(Way::Lower, now_ms, current_speed)),
            }
        }
    }

    /// Notes that a bot was introduced into `way` at `now_ms`.
    pub fn record_spawn(&mut self, way: Way, now_ms: u64)
        requires
            old(self).lanes@.len() == 3,
        ensures
            final(self).lanes@ =~= old(self).lanes@.update(
                spec_lane_index(way),
                Lane { way, last_spawn_time: Some(now_ms) },
            ),
            final(self).bot_car_list == old(self).bot_car_list,
    {
        let idx = lane_index(way);
        let lane = &mut self.lanes[idx];
        *lane = Lane { way, last_spawn_time: Some(now_ms) };
    }

    /// Picks a lane at random and introduces a bot there if that lane is
    /// free, recording the spawn time. Returns the lane a bot entered, or
    /// `None` if the chosen lane was not free.
    pub fn spawn_car(&mut self, now_ms: u64, current_speed: u32, texture_count: usize) -> (r:
        Option<Way>)
        requires
            spec_lanes_wf(old(self).lanes@, now_ms),
            1 <= current_speed,
            1 <= texture_count,
        ensures
            match r {
                Some(way) => exists|texture_id: usize|
                    spec_spawned(
                        *old(self),
                        *final(self),
                        now_ms,
                        current_speed,
                        texture_count,
                        Some((way, texture_id)),
                    ),
                None => spec_spawned(
                    *old(self),
                    *final(self),
                    now_ms,
                    current_speed,
                    texture_count,
                    None,
                ),
            },
            spec_lanes_wf(final(self).lanes@, now_ms),
    {
        let way_idx = random_below(3);
        let way = way_of_index(way_idx);
        if self.is_lane_free(way, now_ms, current_speed) {
            let texture_id = random_below(texture_count);
            self.bot_car_list.push(BotCar::new(way, texture_id));
            self.record_spawn(way, now_ms);
            assert(self.bot_car_list@ =~= old(self).bot_car_list@.push(
                BotCar { way, x_position: WINDOW_WIDTH, speed: 0, texture_id },
            ));
            assert(spec_spawned(
                *old(self),
                *self,
                now_ms,
                current_speed,
                texture_count,
                Some((way, texture_id)),
            ));
            Some(way)
        } else {
            assert(!spec_lane_free(
                old(self).bot_car_list@,
                old(self).lanes@,
                way,
                now_ms,
                current_speed,
            ));
            None
        }
    }
}

/// The spawn attempt's outcome: `sp` names the drawn lane and sprite handle
/// when the lane was free, or `None` when the drawn lane was not free. This
/// relates the spawner's state before and after one attempt.
pub open spec fn spec_spawned(
    m: BotManager,
    m2: BotManager,
    now_ms: u64,
    current_speed: u32,
    texture_count: usize,
    sp: Option<(Way, usize)>,
) -> bool {
    &&& spec_spawn_choice_ok(m.bot_car_list@, m.lanes@, now_ms, current_speed, texture_count, sp)
    &&& m2.bot_car_list@ == spec_bots_after_spawn(m.bot_car_list@, sp)
    &&& m2.lanes@ == spec_lanes_after_spawn(m.lanes@, sp, now_ms)
}

/// Whether `sp` is an outcome the spawner can report: a spawn only into a
/// free lane with a real sprite handle, and a refusal only when some lane is
/// not free.
pub open spec fn spec_spawn_choice_ok(
    bots: Seq<BotCar>,
    lanes: Seq<Lane>,
    now_ms: u64,
    current_speed: u32,
    texture_count: usize,
    sp: Option<(Way, usize)>,
) -> bool {
    match sp {
        Some((way, texture_id)) => spec_lane_free(bots, lanes, way, now_ms, current_speed)
            && texture_id < texture_count,
        None => exists|w: Way| !spec_lane_free(bots, lanes, w, now_ms, current_speed),
    }
}

/// The fleet after a spawn attempt: one fresh bot at the right edge of the
/// track when a lane was free, unchanged otherwise.
pub open spec fn spec_bots_after_spawn(bots: Seq<BotCar>, sp: Option<(Way, usize)>) -> Seq<
    BotCar,
> {
    match sp {
        Some((way, texture_id)) => bots.push(
            BotCar { way, x_position: WINDOW_WIDTH, speed: 0, texture_id },
        ),
        None => bots,
    }
}

/// The lane bookkeeping after a spawn attempt.
pub open spec fn spec_lanes_after_spawn(
    lanes: Seq<Lane>,
    sp: Option<(Way, usize)>,
    now_ms: u64,
) -> Seq<Lane> {
    match sp {
        Some((way, _)) => lanes.update(
            spec_lane_index(way),
            Lane { way, last_spawn_time: Some(now_ms) },
        ),
        None => lanes,
    }
}

/// The fleet after every bot took a fresh snapshot of the shared speed.
pub open spec fn spec_with_speed(bots: Seq<BotCar>, speed: u32) -> Seq<BotCar> {
    bots.map_values(|b: BotCar| BotCar { speed, ..b })
}

/// The fleet after every bot advanced by one frame.
pub open spec fn spec_advanced(bots: Seq<BotCar>, delta_time_ms: u32) -> Seq<BotCar> {
    bots.map_values(|b: BotCar| spec_update_position(b, delta_time_ms))
}

/// The first bot in list order that collides with the player, with the
/// midpoint of the overlapping span, if any bot collides.
pub open spec fn spec_first_collision(bots: Seq<BotCar>, player: PlayerCar) -> Option<(Way, i64)>
    decreases bots.len(),
{
    if bots.len() == 0 {
        None
    } else if spec_is_colliding(bots[0], player) {
        Some((bots[0].way, spec_collision_point(bots[0]) as i64))
    } else {
        spec_first_collision(bots.drop_first(), player)
    }
}

/// The fleet with every bot that left the track for good evicted, in order.
pub open spec fn spec_keep_on_screen(bots: Seq<BotCar>) -> Seq<BotCar>
    decreases bots.len(),
{
    if bots.len() == 0 {
        Seq::empty()
    } else {
        let rest = spec_keep_on_screen(bots.drop_last());
        if spec_is_out_of_screen(bots.last()) {
            rest
        } else {
            rest.push(bots.last())
        }
    }
}

/// One full traffic tick over the fleet whose speeds are already refreshed:
/// a spawn attempt with outcome `sp`, every bot advanced by the frame,
/// the first collision against the player taken, and the bots that left the
/// track evicted.
pub open spec fn spec_traffic_step(
    bots: Seq<BotCar>,
    lanes: Seq<Lane>,
    bots2: Seq<BotCar>,
    lanes2: Seq<Lane>,
    player: PlayerCar,
    now_ms: u64,
    delta_time_ms: u32,
    current_speed: u32,
    texture_count: usize,
    collision: Option<(Way, i64)>,
    sp: Option<(Way, usize)>,
) -> bool {
    let staged = spec_advanced(spec_bots_after_spawn(bots, sp), delta_time_ms);
    &&& spec_spawn_choice_ok(bots, lanes, now_ms, current_speed, texture_count, sp)
    &&& bots2 == spec_keep_on_screen(staged)
    &&& lanes2 == spec_lanes_after_spawn(lanes, sp, now_ms)
    &&& collision == spec_first_collision(staged, player)
}

/// Eviction keeps a selection of the fleet: every survivor stood in the old
/// fleet and is still on the track.
pub proof fn lemma_keep_on_screen_membership(bots: Seq<BotCar>, j: int)
    requires
        0 <= j < spec_keep_on_screen(bots).len(),
    ensures
        bots.contains(spec_keep_on_screen(bots)[j]),
        !spec_is_out_of_screen(spec_keep_on_screen(bots)[j]),
    decreases bots.len(),
{
    if bots.len() > 0 {
        let rest = spec_keep_on_screen(bots.drop_last());
        if j < rest.len() {
            lemma_keep_on_screen_membership(bots.drop_last(), j);
            assert(bots.drop_last().contains(rest[j]));
            let i = choose|i: int| 0 <= i < bots.drop_last().len() && bots.drop_last()[i] == rest[j];
            assert(bots[i] == rest[j]);
        } else {
            assert(spec_keep_on_screen(bots)[j] == bots.last());
        }
    }
}

impl BotManager {
    /// Hands the current shared speed to every active bot.
    pub fn set_all_speeds(&mut self, speed: u32)
        ensures
            final(self).bot_car_list@ =~= spec_with_speed(old(self).bot_car_list@, speed),
            final(self).lanes == old(self).lanes,
    {
        let mut updated: Vec<BotCar> = Vec::new();
        let mut i: usize = 0;
        while i < self.bot_car_list.len()
            invariant
                i <= self.bot_car_list@.len(),
                updated@.len() == i,
                forall|j: int|
                    0 <= j < i ==> updated@[j] == (BotCar {
                        speed,
                        ..#[trigger] self.bot_car_list@[j]
                    }),
            decreases self.bot_car_list@.len() - i,
        {
            let mut bot = self.bot_car_list[i];
            bot.set_speed(speed);
            updated.push(bot);
            i = i + 1;
        }
        self.bot_car_list = updated;
    }

    /// Advances every active bot by one frame.
    pub fn advance_all(&mut self, delta_time_ms: u32)
        requires
            spec_bots_wf(old(self).bot_car_list@),
            delta_time_ms <= MAX_FRAME_DELTA_MS,
        ensures
            final(self).bot_car_list@ =~= spec_advanced(old(self).bot_car_list@, delta_time_ms),
            spec_bot_in_flight_all(final(self).bot_car_list@),
            final(self).lanes == old(self).lanes,
    {
        let mut updated: Vec<BotCar> = Vec::new();
        let mut i: usize = 0;
        while i < self.bot_car_list.len()
            invariant
                i <= self.bot_car_list@.len(),
                spec_bots_wf(self.bot_car_list@),
                delta_time_ms <= MAX_FRAME_DELTA_MS,
                updated@.len() == i,
                forall|j: int|
                    0 <= j < i ==> updated@[j] == spec_update_position(
                        #[trigger] self.bot_car_list@[j],
                        delta_time_ms,
                    ),
                spec_bot_in_flight_all(updated@),
            decreases self.bot_car_list@.len() - i,
        {
            let mut bot = self.bot_car_list[i];
            bot.update_position(delta_time_ms);
            updated.push(bot);
            i = i + 1;
        }
        self.bot_car_list = updated;
    }

    /// Scans the fleet in order for the first bot colliding with the player.
    pub fn first_collision(&self, player_car: &PlayerCar) -> (r: Option<(Way, i64)>)
        requires
            spec_bot_in_flight_all(self.bot_car_list@),
        ensures
            r == spec_first_collision(self.bot_car_list@, *player_car),
    {
        let ghost bots = self.bot_car_list@;
        let mut i: usize = 0;
        assert(bots.skip(0) =~= bots);
        while i < self.bot_car_list.len()
            invariant
                i <= bots.len(),
                bots == self.bot_car_list@,
                spec_bot_in_flight_all(bots),
                spec_first_collision(bots, *player_car) == spec_first_collision(
                    bots.skip(i as int),
                    *player_car,
                ),
            decreases bots.len() - i,
        {
            assert(bots.skip(i as int).drop_first() =~= bots.skip(i as int + 1));
            let r = self.bot_car_list[i].is_colliding(player_car);
            if r.is_some() {
                return r;
            }
            i = i + 1;
        }
        None
    }

    /// Evicts every bot that left the track for good.
    pub fn remove_out_of_screen(&mut self)
        ensures
            final(self).bot_car_list@ =~= spec_keep_on_screen(old(self).bot_car_list@),
            final(self).lanes == old(self).lanes,
    {
        let ghost bots = self.bot_car_list@;
        let mut kept: Vec<BotCar> = Vec::new();
        let mut i: usize = 0;
        assert(bots.take(0) =~= Seq::<BotCar>::empty());
        while i < self.bot_car_list.len()
            invariant
                i <= bots.len(),
                bots == self.bot_car_list@,
                kept@ =~= spec_keep_on_screen(bots.take(i as int)),
            decreases bots.len() - i,
        {
            assert(bots.take(i as int + 1).drop_last() =~= bots.take(i as int));
            assert(bots.take(i as int + 1).last() == bots[i as int]);
            let bot = self.bot_car_list[i];
            if !bot.is_out_of_screen() {
                kept.push(bot);
            }
            i = i + 1;
        }
        assert(bots.take(bots.len() as int) =~= bots);
        self.bot_car_list = kept;
    }
}

/// The ordered position of each lane, top to bottom.
pub fn lane_index(way: Way) -> (r: usize)
    ensures
        r == spec_lane_index(way),
{
    match way {
        Way::Upper => 0,
        Way::Center => 1,
        Way::Lower => 2,
    }
}

/// The lane at each ordered position.
pub fn way_of_index(i: usize) -> (r: Way)
    ensures
        r == spec_way_of_index(i as int),
{
    if i == 0 {
        Way::Upper
    } else if i == 1 {
        Way::Center
    } else {
        Way::Lower
    }
}

/// Relies on `rand::Rng::gen_range` over the range `0..n`: the sample lies in
/// the range, so it is strictly below `n`. `gen_range` panics on an empty
/// range, which the precondition rules out.
#[verifier::external_body]
fn random_below(n: usize) -> (r: usize)
    requires
        1 <= n,
    ensures
        r < n,
{
    rand::thread_rng().gen_range(0..n)
}

/// With no bot vehicle anywhere, every lane is free: a spawn into an empty
/// track always succeeds, whichever lane the spawner draws.
pub proof fn lemma_lane_free_when_no_bots(
    bots: Seq<BotCar>,
    lanes: Seq<Lane>,
    way: Way,
    now_ms: u64,
    current_speed: u32,
)
    requires
        bots.len() == 0,
    ensures
        spec_lane_free(bots, lanes, way, now_ms, current_speed),
{
}

/// Within the cool-down window, a second spawn into the same lane is
/// rejected: once a spawn into `way` is on record at `now_ms` and a bot is on
/// the track, the lane is not free at any instant of the window.
pub proof fn lemma_second_spawn_rejected(
    bots: Seq<BotCar>,
    lanes: Seq<Lane>,
    way: Way,
    now_ms: u64,
    later_ms: u64,
    current_speed: u32,
)
    requires
        bots.len() > 0,
        lanes.len() == 3,
        lanes[spec_lane_index(way)].last_spawn_time == Some(now_ms),
        now_ms <= later_ms,
        later_ms < now_ms + spec_recent_window_ms(current_speed),
    ensures
        !spec_lane_free(bots, lanes, way, later_ms, current_speed),
{
}

/// The center lane's neighbor rule: with bots on the track and the center
/// lane itself not recently used, the center lane is rejected when both edge
/// lanes were recently used and accepted when at most one of them was.
pub proof fn lemma_center_lane_neighbor_rule(
    bots: Seq<BotCar>,
    lanes: Seq<Lane>,
    now_ms: u64,
    current_speed: u32,
)
    requires
        bots.len() > 0,
        lanes.len() == 3,
        !spec_recently_used(lanes, Way::Center, now_ms, current_speed),
    ensures
        spec_recently_used(lanes, Way::Upper, now_ms, current_speed) && spec_recently_used(
            lanes,
            Way::Lower,
            now_ms,
            current_speed,
        ) ==> !spec_lane_free(bots, lanes, Way::Center, now_ms, current_speed),
        !(spec_recently_used(lanes, Way::Upper, now_ms, current_speed) && spec_recently_used(
            lanes,
            Way::Lower,
            now_ms,
            current_speed,
        )) ==> spec_lane_free(bots, lanes, Way::Center, now_ms, current_speed),
{
}

} // verus!
