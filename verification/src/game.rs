//! The round state machine.
//!
//! Each display frame, the surrounding binary reads one pending input action,
//! measures the frame time, reads the shared speed under its lock, and calls
//! [`Game::run`]. The machine applies the player's lane change, accrues
//! score, drives the traffic simulation, detects collisions and moves among
//! the four round states; it returns the side effects the frame owes —
//! sounds, timer starts and stops, the speed reset — for the caller to
//! perform. Entrance-gated effects are keyed off the recorded previous state,
//! so they fire exactly once per transition, not on every tick spent in a
//! state.
use vstd::prelude::*;

use crate::background::Background;
use crate::bot_manager::{spec_advanced, spec_bots_after_spawn, spec_bots_wf,
    spec_first_collision, spec_keep_on_screen, spec_lanes_after_spawn, spec_lanes_wf,
    spec_spawn_choice_ok, spec_spawned, spec_traffic_step, spec_with_speed, BotManager};
use crate::car::{spec_bot_in_bounds, spec_bot_in_flight, BotCar, PlayerCar, Way};
use crate::config::{MAX_FRAME_DELTA_MS, MAX_GAME_SPEED, SPEED_INCREASE_TIMING, START_GAME_SPEED};
use crate::keyboard::GameAction;

verus! {

/// The four states a round cycles through.
#[derive(Clone, Copy, PartialEq, Eq, Structural, Debug)]
pub enum GameState {
    NotStarted,
    Running,
    Pause,
    GameOver,
}

/// The three tracks the audio collaborator can play or stop.
#[derive(Clone, Copy, PartialEq, Eq, Structural, Hash, Debug)]
pub enum SoundType {
    Menu,
    Game,
    GameOver,
}

/// One side effect a frame owes to the outside collaborators: audio calls,
/// the speed-progression timer's lifecycle, and the reset of the shared
/// speed. The caller performs them in list order.
#[derive(Clone, Copy, PartialEq, Eq, Structural, Debug)]
pub enum SideEffect {
    /// Play a sound, looped when the flag is set.
    PlaySound(SoundType, bool),
    StopSound(SoundType),
    ToggleMute,
    /// Start the speed-progression timer with the given period in
    /// milliseconds.
    StartSpeedTimer(u16),
    /// Stop the speed-progression timer and wait until it has exited.
    StopSpeedTimer,
    /// Write this value to the shared speed, in pixels per second.
    ResetSpeed(u32),
}

/// What one frame hands back to the loop that drives it.
#[derive(Debug)]
pub struct FrameOutput {
    /// The program should exit: the quit action arrived outside a running
    /// round.
    pub quit: bool,
    /// The side effects this frame owes, in order.
    pub effects: Vec<SideEffect>,
}

/// Where a lane-change action takes the player, if it is valid from `way`:
/// `Up` and `Down` move one lane, never off the track.
pub open spec fn spec_destination_way(game_action: GameAction, way: Way) -> Option<Way> {
    match (game_action, way) {
        (GameAction::Up, Way::Center) => Some(Way::Upper),
        (GameAction::Up, Way::Lower) => Some(Way::Center),
        (GameAction::Down, Way::Upper) => Some(Way::Center),
        (GameAction::Down, Way::Center) => Some(Way::Lower),
        _ => None,
    }
}

/// The player's lane after an action: moved where the action is a valid
/// transition, kept otherwise.
pub open spec fn spec_moved_way(game_action: GameAction, way: Way) -> Way {
    match spec_destination_way(game_action, way) {
        Some(new_way) => new_way,
        None => way,
    }
}

/// Saturating addition on the simulated clock.
pub open spec fn spec_sat_add_u64(a: u64, b: u64) -> u64 {
    if a + b > u64::MAX {
        u64::MAX
    } else {
        (a + b) as u64
    }
}

/// One frame's scoring: the score grows by half a percent of the current
/// speed, rounded down — monotone in the speed — and saturates at the top of
/// its range.
pub open spec fn spec_score_add(score: u32, current_speed: u32) -> u32 {
    if score + current_speed / 200 > u32::MAX {
        u32::MAX
    } else {
        (score + current_speed / 200) as u32
    }
}

/// When the speed-progression timer is running, as a function of the round
/// state: during Running, and for the single entrance tick still pending
/// after Running was left for Pause or GameOver (the entrance handler stops
/// it on that tick).
pub open spec fn spec_timer_should_run(state: GameState, previous: GameState) -> bool {
    state == GameState::Running || ((state == GameState::Pause || state == GameState::GameOver)
        && previous == GameState::Running)
}

/// The mute key's effect, ahead of everything else in the frame.
pub open spec fn spec_mute_effects(game_action: GameAction) -> Seq<SideEffect> {
    if game_action == GameAction::Mute {
        seq![SideEffect::ToggleMute]
    } else {
        Seq::empty()
    }
}

/// The one-shot side effects owed on the single tick that enters a state:
/// the menu and round music start, and the speed-progression timer stops
/// when Running was left for Pause or GameOver.
pub open spec fn spec_entrance_effects(state: GameState, previous: GameState) -> Seq<SideEffect> {
    if state == previous {
        Seq::empty()
    } else {
        match state {
            GameState::NotStarted => seq![SideEffect::PlaySound(SoundType::Menu, true)],
            GameState::Running => seq![SideEffect::PlaySound(SoundType::Game, true)],
            GameState::Pause => seq![SideEffect::StopSpeedTimer],
            GameState::GameOver => seq![
                SideEffect::StopSound(SoundType::Game),
                SideEffect::PlaySound(SoundType::GameOver, false),
                SideEffect::StopSpeedTimer,
            ],
        }
    }
}

/// The side effects owed to the confirm/pause action, by state: starting a
/// round from the menu, pausing, resuming, and leaving the game-over screen
/// with the shared speed reset.
pub open spec fn spec_action_effects(state: GameState, game_action: GameAction) -> Seq<
    SideEffect,
> {
    if game_action != GameAction::PauseResume {
        Seq::empty()
    } else {
        match state {
            GameState::NotStarted => seq![
                SideEffect::StopSound(SoundType::Menu),
                SideEffect::StartSpeedTimer(SPEED_INCREASE_TIMING),
            ],
            GameState::Running => seq![SideEffect::StopSound(SoundType::Game)],
            GameState::Pause => seq![SideEffect::StartSpeedTimer(SPEED_INCREASE_TIMING)],
            GameState::GameOver => seq![
                SideEffect::StopSound(SoundType::GameOver),
                SideEffect::ResetSpeed(START_GAME_SPEED),
            ],
        }
    }
}

/// Every side effect one frame owes, in order: the mute toggle, then the
/// entrance-gated one-shots, then what the action triggers. A deterministic
/// function of the visible frame — the traffic's randomness never reaches
/// the effects.
pub open spec fn spec_frame_effects(
    state: GameState,
    previous: GameState,
    game_action: GameAction,
) -> Seq<SideEffect> {
    spec_mute_effects(game_action) + spec_entrance_effects(state, previous)
        + spec_action_effects(state, game_action)
}

/// The round state machine and everything it exclusively owns.
pub struct Game {
    pub player_car: PlayerCar,
    pub bot_manager: BotManager,
    pub background: Background,
    /// Model of the speed-progression timer's lifecycle; the real timer
    /// thread is started and stopped by the caller through the returned
    /// side effects.
    pub speed_timer_running: bool,
    pub score: u32,
    /// The best score of any finished round this session.
    pub session_record: u32,
    pub game_state: GameState,
    /// The state recorded on the previous tick, consulted to detect
    /// entrances.
    pub game_previous_state: GameState,
    /// Lane and track position of the collision that ended the last round.
    pub game_over_collision: Option<(Way, i64)>,
    /// Simulated time: the total of the frame times spent Running, in
    /// milliseconds. The lane cool-down windows are measured against it, so
    /// paused time does not count.
    pub elapsed_ms: u64,
    /// How many bot sprites the asset provider loaded; spawned bots carry a
    /// handle below this count.
    pub texture_count: usize,
}

impl Game {
    /// The machine's invariant: sane lanes and bots, the background offset in
    /// range, at least one bot sprite, and the timer model in lockstep with
    /// the round state.
    pub open spec fn wf(self) -> bool {
        &&& spec_lanes_wf(self.bot_manager.lanes@, self.elapsed_ms)
        &&& spec_bots_wf(self.bot_manager.bot_car_list@)
        &&& self.background.wf()
        &&& 1 <= self.texture_count
        &&& self.speed_timer_running == spec_timer_should_run(
            self.game_state,
            self.game_previous_state,
        )
    }

    /// A fresh machine in the menu, with an empty track and a zero score.
    /// `texture_count` is how many bot sprites the asset provider supplies.
    pub fn new(texture_count: usize) -> (r: Game)
        requires
            1 <= texture_count,
        ensures
            r.wf(),
            r.player_car.way == Way::Center,
            r.bot_manager.bot_car_list@.len() == 0,
            forall|i: int| 0 <= i < 3 ==> (#[trigger] r.bot_manager.lanes@[i]).last_spawn_time
                is None,
            r.background == (Background { x_position: 0, speed: 300u32 }),
            r.speed_timer_running == false,
            r.score == 0,
            r.session_record == 0,
            r.game_state == GameState::NotStarted,
            r.game_previous_state == GameState::NotStarted,
            r.game_over_collision is None,
            r.elapsed_ms == 0,
            r.texture_count == texture_count,
    {
        Game {
            player_car: PlayerCar::new(),
            bot_manager: BotManager::new(),
            background: Background::new(),
            speed_timer_running: false,
            score: 0,
            session_record: 0,
            game_state: GameState::NotStarted,
            game_previous_state: GameState::NotStarted,
            game_over_collision: None,
            elapsed_ms: 0,
            texture_count,
        }
    }

    /// The validated lane transitions, as a total lookup.
    pub fn get_destination_way(game_action: GameAction, way: Way) -> (r: Option<Way>)
        ensures
            r == spec_destination_way(game_action, way),
    {
        match (game_action, way) {
            (GameAction::Up, Way::Center) => Some(Way::Upper),
            (GameAction::Up, Way::Lower) => Some(Way::Center),
            (GameAction::Down, Way::Upper) => Some(Way::Center),
            (GameAction::Down, Way::Center) => Some(Way::Lower),
            _ => None,
        }
    }

    /// Applies a validated lane transition to the player car, if the action
    /// is one.
    fn move_player_car(&mut self, game_action: GameAction)
        ensures
            *final(self) == (Game {
                player_car: PlayerCar {
                    way: spec_moved_way(game_action, old(self).player_car.way),
                },
                ..*old(self)
            }),
    {
        if let Some(new_way) = Game::get_destination_way(game_action, self.player_car.get_way()) {
            self.player_car.set_way(new_way);
        }
    }

    /// Begins a round: zero score, the speed-progression timer started, the
    /// round Running.
    pub fn start(&mut self, effects: &mut Vec<SideEffect>)
        ensures
            *final(self) == (Game {
                score: 0,
                game_state: GameState::Running,
                speed_timer_running: true,
                ..*old(self)
            }),
            final(effects)@ == old(effects)@.push(
                SideEffect::StartSpeedTimer(SPEED_INCREASE_TIMING),
            ),
    {
        self.score = 0;
        effects.push(SideEffect::StartSpeedTimer(SPEED_INCREASE_TIMING));
        self.speed_timer_running = true;
        self.game_state = GameState::Running;
    }

    /// Ends a round: the speed-progression timer stopped and the session
    /// record raised to the round's score if it beat it.
    fn stop(&mut self, effects: &mut Vec<SideEffect>)
        ensures
            *final(self) == (Game {
                speed_timer_running: false,
                session_record: if old(self).session_record < old(self).score {
                    old(self).score
                } else {
                    old(self).session_record
                },
                ..*old(self)
            }),
            final(effects)@ == old(effects)@.push(SideEffect::StopSpeedTimer),
    {
        self.speed_timer_running = false;
        effects.push(SideEffect::StopSpeedTimer);
        if self.session_record < self.score {
            self.session_record = self.score;
        }
    }

    /// One traffic tick: a random spawn attempt, every bot advanced by the
    /// frame, the first collision against the player taken, the bots that
    /// left the track evicted. Returns the collision, if one happened.
    fn manage_bot_cars(&mut self, delta_time_ms: u32, current_speed: u32) -> (r: Option<
        (Way, i64),
    >)
        requires
            spec_lanes_wf(old(self).bot_manager.lanes@, old(self).elapsed_ms),
            spec_bots_wf(old(self).bot_manager.bot_car_list@),
            delta_time_ms <= MAX_FRAME_DELTA_MS,
            1 <= current_speed,
            1 <= old(self).texture_count,
        ensures
            exists|sp: Option<(Way, usize)>|
                spec_traffic_step(
                    old(self).bot_manager.bot_car_list@,
                    old(self).bot_manager.lanes@,
                    final(self).bot_manager.bot_car_list@,
                    final(self).bot_manager.lanes@,
                    old(self).player_car,
                    old(self).elapsed_ms,
                    delta_time_ms,
                    current_speed,
                    old(self).texture_count,
                    r,
                    sp,
                ),
            spec_lanes_wf(final(self).bot_manager.lanes@, old(self).elapsed_ms),
            spec_bots_wf(final(self).bot_manager.bot_car_list@),
            *final(self) == (Game { bot_manager: final(self).bot_manager, ..*old(self) }),
    {
        let ghost bm0 = self.bot_manager;
        let now_ms = self.elapsed_ms;
        let texture_count = self.texture_count;
        let spawned = self.bot_manager.spawn_car(now_ms, current_speed, texture_count);
        let ghost bm1 = self.bot_manager;
        let ghost sp: Option<(Way, usize)> = match spawned {
            Some(way) => Some(
                (
                    way,
                    choose|texture_id: usize|
                        spec_spawned(
                            bm0,
                            bm1,
                            now_ms,
                            current_speed,
                            texture_count,
                            Some((way, texture_id)),
                        ),
                ),
            ),
            None => None,
        };
        proof {
            assert(spec_spawned(bm0, bm1, now_ms, current_speed, texture_count, sp));
            assert forall|i: int| 0 <= i < bm1.bot_car_list@.len() implies spec_bot_in_bounds(
                #[trigger] bm1.bot_car_list@[i],
            ) by {
                if i < bm0.bot_car_list@.len() {
                    assert(spec_bot_in_bounds(bm0.bot_car_list@[i]));
                }
            }
        }
        self.bot_manager.advance_all(delta_time_ms);
        let ghost bm2 = self.bot_manager;
        let car_colliding = self.bot_manager.first_collision(&self.player_car);
        self.bot_manager.remove_out_of_screen();
        proof {
            assert(spec_traffic_step(
                bm0.bot_car_list@,
                bm0.lanes@,
                self.bot_manager.bot_car_list@,
                self.bot_manager.lanes@,
                self.player_car,
                now_ms,
                delta_time_ms,
                current_speed,
                texture_count,
                car_colliding,
                sp,
            ));
            assert forall|j: int| 0 <= j < self.bot_manager.bot_car_list@.len()
                implies spec_bot_in_bounds(#[trigger] self.bot_manager.bot_car_list@[j]) by {
                crate::bot_manager::lemma_keep_on_screen_membership(bm2.bot_car_list@, j);
                let b = self.bot_manager.bot_car_list@[j];
                let i = choose|i: int|
                    0 <= i < bm2.bot_car_list@.len() && bm2.bot_car_list@[i] == b;
                assert(spec_bot_in_flight(bm2.bot_car_list@[i]));
            }
        }
        car_colliding
    }

    /// One frame of the round state machine. `game_action` is the pending
    /// input (or `NoInput`), `delta_time_ms` the frame time, `current_speed`
    /// the shared speed read under its lock. Returns whether the program
    /// should quit and the side effects the frame owes.
    ///
    /// The quit action is honored only while not Running, to avoid abrupt
    /// termination mid-round. The score grows monotonically while Running
    /// and never changes in Pause or GameOver; the session record never
    /// decreases. The side effects are the deterministic
    /// [`spec_frame_effects`]; the traffic tick of a Running frame is pinned
    /// by [`spec_running_frame`] up to the spawner's random draw.
    pub fn run(&mut self, game_action: GameAction, delta_time_ms: u32, current_speed: u32) -> (r:
        FrameOutput)
        requires
            old(self).wf(),
            delta_time_ms <= MAX_FRAME_DELTA_MS,
            1 <= current_speed <= MAX_GAME_SPEED,
        ensures
            final(self).wf(),
            r.quit == (game_action == GameAction::Quit && old(self).game_state
                != GameState::Running),
            r.quit ==> *final(self) == *old(self) && r.effects@ == Seq::<SideEffect>::empty(),
            !r.quit ==> r.effects@ == spec_frame_effects(
                old(self).game_state,
                old(self).game_previous_state,
                game_action,
            ),
            !r.quit ==> final(self).game_previous_state == old(self).game_state,
            final(self).texture_count == old(self).texture_count,
            final(self).session_record >= old(self).session_record,
            old(self).game_state == GameState::Running ==> final(self).score >= old(self).score,
            old(self).game_state == GameState::Pause || old(self).game_state
                == GameState::GameOver ==> final(self).score == old(self).score,
            !r.quit && old(self).game_state == GameState::NotStarted ==> *final(self) == (
            if game_action == GameAction::PauseResume {
                (Game {
                    score: 0,
                    game_state: GameState::Running,
                    game_previous_state: GameState::NotStarted,
                    speed_timer_running: true,
                    ..*old(self)
                })
            } else {
                (Game {
                    background: old(self).background.spec_moved(delta_time_ms),
                    game_previous_state: GameState::NotStarted,
                    ..*old(self)
                })
            }),
            !r.quit && old(self).game_state == GameState::Pause ==> *final(self) == (Game {
                game_state: if game_action == GameAction::PauseResume {
                    GameState::Running
                } else {
                    GameState::Pause
                },
                game_previous_state: GameState::Pause,
                speed_timer_running: game_action == GameAction::PauseResume,
                ..*old(self)
            }),
            !r.quit && old(self).game_state == GameState::GameOver ==> ({
                let entered = old(self).game_previous_state != GameState::GameOver;
                &&& final(self).session_record == (
                if entered && old(self).session_record < old(self).score {
                    old(self).score
                } else {
                    old(self).session_record
                })
                &&& final(self).score == old(self).score
                &&& final(self).player_car == old(self).player_car
                &&& final(self).elapsed_ms == old(self).elapsed_ms
                &&& final(self).game_over_collision == old(self).game_over_collision
                &&& final(self).speed_timer_running == false
                &&& final(self).bot_manager.lanes@ == old(self).bot_manager.lanes@
                &&& if game_action == GameAction::PauseResume {
                    &&& final(self).game_state == GameState::NotStarted
                    &&& final(self).bot_manager.bot_car_list@ == Seq::<BotCar>::empty()
                    &&& final(self).background == (Background {
                        speed: START_GAME_SPEED,
                        ..old(self).background
                    })
                } else {
                    &&& final(self).game_state == GameState::GameOver
                    &&& final(self).bot_manager.bot_car_list == old(self).bot_manager.bot_car_list
                    &&& final(self).background == old(self).background
                }
            }),
            old(self).game_state == GameState::Running ==> exists|sp: Option<(Way, usize)>|
                spec_running_frame(
                    *old(self),
                    *final(self),
                    game_action,
                    delta_time_ms,
                    current_speed,
                    sp,
                ),
    {
        let mut effects: Vec<SideEffect> = Vec::new();
        if game_action == GameAction::Quit && self.game_state != GameState::Running {
            return FrameOutput { quit: true, effects };
        }
        if game_action == GameAction::Mute {
            effects.push(SideEffect::ToggleMute);
        }
        let entrance = self.game_state != self.game_previous_state;
        self.game_previous_state = self.game_state;
        match self.game_state {
            GameState::NotStarted => {
                if entrance {
                    effects.push(SideEffect::PlaySound(SoundType::Menu, true));
                }
                if game_action == GameAction::PauseResume {
                    effects.push(SideEffect::StopSound(SoundType::Menu));
                    self.start(&mut effects);
                } else {
                    self.background.move_texture(delta_time_ms);
                }
            },
            GameState::Running => {
                if entrance {
                    effects.push(SideEffect::PlaySound(SoundType::Game, true));
                }
                self.move_player_car(game_action);
                let increment = current_speed / 200;
                if self.score <= u32::MAX - increment {
                    self.score = self.score + increment;
                } else {
                    self.score = u32::MAX;
                }
                self.background.set_speed(current_speed * 4 / 5);
                self.background.move_texture(delta_time_ms);
                self.bot_manager.set_all_speeds(current_speed);
                if self.elapsed_ms <= u64::MAX - (delta_time_ms as u64) {
                    self.elapsed_ms = self.elapsed_ms + (delta_time_ms as u64);
                } else {
                    self.elapsed_ms = u64::MAX;
                }
                let ghost mid = *self;
                let car_colliding = self.manage_bot_cars(delta_time_ms, current_speed);
                if let Some((way, x_position)) = car_colliding {
                    self.game_state = GameState::GameOver;
                    self.game_over_collision = Some((way, x_position));
                }
                if game_action == GameAction::PauseResume {
                    effects.push(SideEffect::StopSound(SoundType::Game));
                    self.game_state = GameState::Pause;
                }
                proof {
                    let sp = choose|sp: Option<(Way, usize)>|
                        spec_traffic_step(
                            mid.bot_manager.bot_car_list@,
                            mid.bot_manager.lanes@,
                            self.bot_manager.bot_car_list@,
                            self.bot_manager.lanes@,
                            mid.player_car,
                            mid.elapsed_ms,
                            delta_time_ms,
                            current_speed,
                            mid.texture_count,
                            car_colliding,
                            sp,
                        );
                    assert(spec_running_frame(
                        *old(self),
                        *self,
                        game_action,
                        delta_time_ms,
                        current_speed,
                        sp,
                    ));
                }
            },
            GameState::Pause => {
                if entrance {
                    self.speed_timer_running = false;
                    effects.push(SideEffect::StopSpeedTimer);
                }
                if game_action == GameAction::PauseResume {
                    self.game_state = GameState::Running;
                    self.speed_timer_running = true;
                    effects.push(SideEffect::StartSpeedTimer(SPEED_INCREASE_TIMING));
                }
            },
            GameState::GameOver => {
                if entrance {
                    effects.push(SideEffect::StopSound(SoundType::Game));
                    effects.push(SideEffect::PlaySound(SoundType::GameOver, false));
                    self.stop(&mut effects);
                }
                if game_action == GameAction::PauseResume {
                    self.game_state = GameState::NotStarted;
                    effects.push(SideEffect::StopSound(SoundType::GameOver));
                    effects.push(SideEffect::ResetSpeed(START_GAME_SPEED));
                    self.background.set_speed(START_GAME_SPEED);
                    self.bot_manager.bot_car_list.clear();
                }
            },
        }
        assert(effects@ =~= spec_frame_effects(
            old(self).game_state,
            old(self).game_previous_state,
            game_action,
        ));
        FrameOutput { quit: false, effects }
    }
}

/// The Running-state frame relation, up to the spawner's random draw `sp`:
/// the player's lane transition applied, the score accrued from the current
/// speed, the simulated clock advanced, the background scrolled at 80% of
/// the speed, one traffic tick taken, and the round moved to Pause on the
/// pause action, to GameOver on a collision, and kept Running otherwise.
pub open spec fn spec_running_frame(
    pre: Game,
    post: Game,
    game_action: GameAction,
    delta_time_ms: u32,
    current_speed: u32,
    sp: Option<(Way, usize)>,
) -> bool {
    let now2 = spec_sat_add_u64(pre.elapsed_ms, delta_time_ms as u64);
    let pway = spec_moved_way(game_action, pre.player_car.way);
    let bots0 = spec_with_speed(pre.bot_manager.bot_car_list@, current_speed);
    let staged = spec_advanced(spec_bots_after_spawn(bots0, sp), delta_time_ms);
    let col = spec_first_collision(staged, PlayerCar { way: pway });
    &&& spec_spawn_choice_ok(
        bots0,
        pre.bot_manager.lanes@,
        now2,
        current_speed,
        pre.texture_count,
        sp,
    )
    &&& post.player_car.way == pway
    &&& post.score == spec_score_add(pre.score, current_speed)
    &&& post.session_record == pre.session_record
    &&& post.elapsed_ms == now2
    &&& post.background == (Background {
        speed: ((current_speed * 4 / 5) as u32),
        ..pre.background
    }).spec_moved(delta_time_ms)
    &&& post.bot_manager.bot_car_list@ == spec_keep_on_screen(staged)
    &&& post.bot_manager.lanes@ == spec_lanes_after_spawn(pre.bot_manager.lanes@, sp, now2)
    &&& post.game_over_collision == (if col is Some {
        col
    } else {
        pre.game_over_collision
    })
    &&& post.game_state == (if game_action == GameAction::PauseResume {
        GameState::Pause
    } else if col is Some {
        GameState::GameOver
    } else {
        GameState::Running
    })
    &&& post.game_previous_state == GameState::Running
    &&& post.speed_timer_running == pre.speed_timer_running
    &&& post.texture_count == pre.texture_count
}

/// How many timer starts a list of side effects carries.
pub open spec fn spec_count_timer_starts(effects: Seq<SideEffect>) -> int
    decreases effects.len(),
{
    if effects.len() == 0 {
        0
    } else {
        spec_count_timer_starts(effects.drop_first()) + if effects[0] is StartSpeedTimer {
            1int
        } else {
            0int
        }
    }
}

/// How many timer stops a list of side effects carries.
pub open spec fn spec_count_timer_stops(effects: Seq<SideEffect>) -> int
    decreases effects.len(),
{
    if effects.len() == 0 {
        0
    } else {
        spec_count_timer_stops(effects.drop_first()) + if effects[0] is StopSpeedTimer {
            1int
        } else {
            0int
        }
    }
}

proof fn lemma_count_starts_concat(a: Seq<SideEffect>, b: Seq<SideEffect>)
    ensures
        spec_count_timer_starts(a + b) == spec_count_timer_starts(a) + spec_count_timer_starts(b),
    decreases a.len(),
{
    if a.len() == 0 {
        assert(a + b =~= b);
    } else {
        assert((a + b).drop_first() =~= a.drop_first() + b);
        lemma_count_starts_concat(a.drop_first(), b);
    }
}

proof fn lemma_count_stops_concat(a: Seq<SideEffect>, b: Seq<SideEffect>)
    ensures
        spec_count_timer_stops(a + b) == spec_count_timer_stops(a) + spec_count_timer_stops(b),
    decreases a.len(),
{
    if a.len() == 0 {
        assert(a + b =~= b);
    } else {
        assert((a + b).drop_first() =~= a.drop_first() + b);
        lemma_count_stops_concat(a.drop_first(), b);
    }
}

proof fn lemma_count_singleton(x: SideEffect)
    ensures
        spec_count_timer_starts(seq![x]) == if x is StartSpeedTimer {
            1int
        } else {
            0int
        },
        spec_count_timer_stops(seq![x]) == if x is StopSpeedTimer {
            1int
        } else {
            0int
        },
{
    assert(spec_count_timer_starts(Seq::<SideEffect>::empty()) == 0);
    assert(spec_count_timer_stops(Seq::<SideEffect>::empty()) == 0);
    assert(seq![x].drop_first() =~= Seq::<SideEffect>::empty());
    assert(seq![x][0] == x);
}

/// Splits a frame's effects into its three parts and counts each.
proof fn lemma_count_frame_parts(state: GameState, previous: GameState, game_action: GameAction)
    ensures
        spec_count_timer_starts(spec_frame_effects(state, previous, game_action))
            == spec_count_timer_starts(spec_mute_effects(game_action)) + spec_count_timer_starts(
            spec_entrance_effects(state, previous),
        ) + spec_count_timer_starts(spec_action_effects(state, game_action)),
        spec_count_timer_stops(spec_frame_effects(state, previous, game_action))
            == spec_count_timer_stops(spec_mute_effects(game_action)) + spec_count_timer_stops(
            spec_entrance_effects(state, previous),
        ) + spec_count_timer_stops(spec_action_effects(state, game_action)),
{
    let m = spec_mute_effects(game_action);
    let e = spec_entrance_effects(state, previous);
    let a = spec_action_effects(state, game_action);
    lemma_count_starts_concat(m, e);
    lemma_count_starts_concat(m + e, a);
    lemma_count_stops_concat(m, e);
    lemma_count_stops_concat(m + e, a);
}

/// Counts a two-element effect list.
proof fn lemma_count_list2(x: SideEffect, y: SideEffect)
    ensures
        spec_count_timer_starts(seq![x, y]) == (if x is StartSpeedTimer {
            1int
        } else {
            0int
        }) + (if y is StartSpeedTimer {
            1int
        } else {
            0int
        }),
        spec_count_timer_stops(seq![x, y]) == (if x is StopSpeedTimer {
            1int
        } else {
            0int
        }) + (if y is StopSpeedTimer {
            1int
        } else {
            0int
        }),
{
    lemma_count_singleton(x);
    lemma_count_singleton(y);
    assert(seq![x, y] =~= seq![x] + seq![y]);
    lemma_count_starts_concat(seq![x], seq![y]);
    lemma_count_stops_concat(seq![x], seq![y]);
}

/// Counts a three-element effect list.
proof fn lemma_count_list3(x: SideEffect, y: SideEffect, z: SideEffect)
    ensures
        spec_count_timer_starts(seq![x, y, z]) == (if x is StartSpeedTimer {
            1int
        } else {
            0int
        }) + (if y is StartSpeedTimer {
            1int
        } else {
            0int
        }) + (if z is StartSpeedTimer {
            1int
        } else {
            0int
        }),
        spec_count_timer_stops(seq![x, y, z]) == (if x is StopSpeedTimer {
            1int
        } else {
            0int
        }) + (if y is StopSpeedTimer {
            1int
        } else {
            0int
        }) + (if z is StopSpeedTimer {
            1int
        } else {
            0int
        }),
{
    lemma_count_list2(x, y);
    lemma_count_singleton(z);
    assert(seq![x, y, z] =~= seq![x, y] + seq![z]);
    lemma_count_starts_concat(seq![x, y], seq![z]);
    lemma_count_stops_concat(seq![x, y], seq![z]);
}

/// Counts each literal list a frame part can be.
proof fn lemma_count_frame_part_lists()
    ensures
        spec_count_timer_starts(Seq::<SideEffect>::empty()) == 0,
        spec_count_timer_stops(Seq::<SideEffect>::empty()) == 0,
        spec_count_timer_starts(seq![SideEffect::ToggleMute]) == 0,
        spec_count_timer_stops(seq![SideEffect::ToggleMute]) == 0,
        spec_count_timer_starts(seq![SideEffect::PlaySound(SoundType::Menu, true)]) == 0,
        spec_count_timer_stops(seq![SideEffect::PlaySound(SoundType::Menu, true)]) == 0,
        spec_count_timer_starts(seq![SideEffect::PlaySound(SoundType::Game, true)]) == 0,
        spec_count_timer_stops(seq![SideEffect::PlaySound(SoundType::Game, true)]) == 0,
        spec_count_timer_starts(seq![SideEffect::StopSpeedTimer]) == 0,
        spec_count_timer_stops(seq![SideEffect::StopSpeedTimer]) == 1,
        spec_count_timer_starts(
            seq![
                SideEffect::StopSound(SoundType::Game),
                SideEffect::PlaySound(SoundType::GameOver, false),
                SideEffect::StopSpeedTimer,
            ],
        ) == 0,
        spec_count_timer_stops(
            seq![
                SideEffect::StopSound(SoundType::Game),
                SideEffect::PlaySound(SoundType::GameOver, false),
                SideEffect::StopSpeedTimer,
            ],
        ) == 1,
        spec_count_timer_starts(
            seq![
                SideEffect::StopSound(SoundType::Menu),
                SideEffect::StartSpeedTimer(SPEED_INCREASE_TIMING),
            ],
        ) == 1,
        spec_count_timer_stops(
            seq![
                SideEffect::StopSound(SoundType::Menu),
                SideEffect::StartSpeedTimer(SPEED_INCREASE_TIMING),
            ],
        ) == 0,
        spec_count_timer_starts(seq![SideEffect::StopSound(SoundType::Game)]) == 0,
        spec_count_timer_stops(seq![SideEffect::StopSound(SoundType::Game)]) == 0,
        spec_count_timer_starts(seq![SideEffect::StartSpeedTimer(SPEED_INCREASE_TIMING)]) == 1,
        spec_count_timer_stops(seq![SideEffect::StartSpeedTimer(SPEED_INCREASE_TIMING)]) == 0,
        spec_count_timer_starts(
            seq![
                SideEffect::StopSound(SoundType::GameOver),
                SideEffect::ResetSpeed(START_GAME_SPEED),
            ],
        ) == 0,
        spec_count_timer_stops(
            seq![
                SideEffect::StopSound(SoundType::GameOver),
                SideEffect::ResetSpeed(START_GAME_SPEED),
            ],
        ) == 0,
{
    lemma_count_singleton(SideEffect::ToggleMute);
    lemma_count_singleton(SideEffect::PlaySound(SoundType::Menu, true));
    lemma_count_singleton(SideEffect::PlaySound(SoundType::Game, true));
    lemma_count_singleton(SideEffect::StopSpeedTimer);
    lemma_count_singleton(SideEffect::StopSound(SoundType::Game));
    lemma_count_singleton(SideEffect::StartSpeedTimer(SPEED_INCREASE_TIMING));
    lemma_count_list3(
        SideEffect::StopSound(SoundType::Game),
        SideEffect::PlaySound(SoundType::GameOver, false),
        SideEffect::StopSpeedTimer,
    );
    lemma_count_list2(
        SideEffect::StopSound(SoundType::Menu),
        SideEffect::StartSpeedTimer(SPEED_INCREASE_TIMING),
    );
    lemma_count_list2(
        SideEffect::StopSound(SoundType::GameOver),
        SideEffect::ResetSpeed(START_GAME_SPEED),
    );
}

/// Entrance-gated effects fire exactly once per transition: a frame's
/// effects start the speed-progression timer exactly once when the frame
/// moves the round into Running — confirming from the menu, or resuming from
/// pause — and never merely because the round already runs. So a round that
/// goes Running, Pause, Running starts the timer exactly twice, however many
/// ticks it spends in each state.
pub proof fn lemma_timer_started_once_per_transition(
    state: GameState,
    previous: GameState,
    game_action: GameAction,
)
    ensures
        spec_count_timer_starts(spec_frame_effects(state, previous, game_action)) == if (state
            == GameState::NotStarted || state == GameState::Pause) && game_action
            == GameAction::PauseResume {
            1int
        } else {
            0int
        },
{
    lemma_count_frame_parts(state, previous, game_action);
    lemma_count_frame_part_lists();
}

/// The counterpart for stops: a frame's effects stop the speed-progression
/// timer exactly once, on the single entrance tick of Pause or of GameOver,
/// and never again while the round sits in either state.
pub proof fn lemma_timer_stopped_once_per_entrance(
    state: GameState,
    previous: GameState,
    game_action: GameAction,
)
    ensures
        spec_count_timer_stops(spec_frame_effects(state, previous, game_action)) == if (state
            == GameState::Pause || state == GameState::GameOver) && previous != state {
            1int
        } else {
            0int
        },
{
    lemma_count_frame_parts(state, previous, game_action);
    lemma_count_frame_part_lists();
}

} // verus!
