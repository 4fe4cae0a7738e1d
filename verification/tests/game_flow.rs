use rusty_corks::car::{BotCar, PlayerCar, Way};
use rusty_corks::game::{Game, GameState, SideEffect, SoundType};
use rusty_corks::keyboard::GameAction;

fn colliding_bot() -> BotCar {
    // Squarely inside the player's body interval, in the starting lane.
    BotCar { way: Way::Center, x_position: 300_000, speed: 0, texture_id: 0 }
}

fn count_timer_starts(effects: &[SideEffect]) -> usize {
    effects.iter().filter(|e| matches!(e, SideEffect::StartSpeedTimer(_))).count()
}

fn count_timer_stops(effects: &[SideEffect]) -> usize {
    effects.iter().filter(|e| matches!(e, SideEffect::StopSpeedTimer)).count()
}

#[test]
fn quit_is_honored_only_outside_running() {
    let mut game = Game::new(1);
    // Mid-menu: quit works and changes nothing.
    let out = game.run(GameAction::Quit, 16, 500);
    assert!(out.quit);
    assert!(out.effects.is_empty());
    assert_eq!(game.game_state, GameState::NotStarted);
    // Mid-round: quit is ignored.
    game.run(GameAction::PauseResume, 16, 500);
    assert_eq!(game.game_state, GameState::Running);
    let out = game.run(GameAction::Quit, 16, 500);
    assert!(!out.quit);
    assert_eq!(game.game_state, GameState::Running);
}

#[test]
fn confirm_starts_a_round() {
    let mut game = Game::new(1);
    let out = game.run(GameAction::PauseResume, 16, 500);
    assert!(!out.quit);
    assert_eq!(
        out.effects,
        vec![
            SideEffect::StopSound(SoundType::Menu),
            SideEffect::StartSpeedTimer(100),
        ]
    );
    assert_eq!(game.game_state, GameState::Running);
    assert_eq!(game.score, 0);
    assert!(game.speed_timer_running);
}

#[test]
fn score_accrues_per_frame_not_per_second() {
    // The end-to-end granularity scenario: a round at speed 300 advanced one
    // second in ten frames gains floor(0.005 * 300) = 1 per frame.
    let mut game = Game::new(1);
    game.run(GameAction::PauseResume, 0, 300);
    for frame in 1..=10u32 {
        game.run(GameAction::NoInput, 100, 300);
        assert_eq!(game.score, frame);
    }
    assert_eq!(game.game_state, GameState::Running);
    assert_eq!(game.elapsed_ms, 1_000);
}

#[test]
fn session_best_survives_a_weaker_round() {
    let mut game = Game::new(1);

    // Round one: 21 running frames at speed 400 score 2 each, then collide.
    game.run(GameAction::PauseResume, 0, 400);
    for _ in 0..20 {
        game.run(GameAction::NoInput, 0, 400);
    }
    assert_eq!(game.score, 40);
    game.bot_manager.bot_car_list.push(colliding_bot());
    game.run(GameAction::NoInput, 0, 400);
    assert_eq!(game.score, 42);
    assert_eq!(game.game_state, GameState::GameOver);
    assert_eq!(game.game_over_collision, Some((Way::Center, 387_500)));

    // The entrance tick records the session best; the score freezes.
    game.run(GameAction::NoInput, 0, 400);
    assert_eq!(game.session_record, 42);
    assert_eq!(game.score, 42);

    // Back to the menu: the track is cleared and the shared speed reset.
    let out = game.run(GameAction::PauseResume, 0, 400);
    assert_eq!(game.game_state, GameState::NotStarted);
    assert!(game.bot_manager.bot_car_list.is_empty());
    assert_eq!(
        out.effects,
        vec![
            SideEffect::StopSound(SoundType::GameOver),
            SideEffect::ResetSpeed(500),
        ]
    );

    // Round two scores only 10; the record must remain 42.
    game.run(GameAction::PauseResume, 0, 400);
    for _ in 0..4 {
        game.run(GameAction::NoInput, 0, 400);
    }
    assert_eq!(game.score, 8);
    game.bot_manager.bot_car_list.push(colliding_bot());
    game.run(GameAction::NoInput, 0, 400);
    assert_eq!(game.score, 10);
    assert_eq!(game.game_state, GameState::GameOver);
    game.run(GameAction::NoInput, 0, 400);
    assert_eq!(game.session_record, 42);
    assert_eq!(game.score, 10);
}

#[test]
fn timer_starts_exactly_twice_across_pause_cycle() {
    // Running -> Pause -> Running starts the timer exactly twice in total:
    // once when the round starts, once on resume — never per tick.
    let mut game = Game::new(1);
    let mut starts = 0;
    let mut stops = 0;

    let out = game.run(GameAction::PauseResume, 16, 500);
    starts += count_timer_starts(&out.effects);
    stops += count_timer_stops(&out.effects);

    // The Running entrance tick plays music but touches no timer; further
    // ticks in Running owe no effects at all.
    let out = game.run(GameAction::NoInput, 16, 500);
    assert_eq!(out.effects, vec![SideEffect::PlaySound(SoundType::Game, true)]);
    let out = game.run(GameAction::NoInput, 16, 500);
    assert!(out.effects.is_empty());

    // Pause: the stop fires on the entrance tick, exactly once.
    let out = game.run(GameAction::PauseResume, 16, 500);
    assert_eq!(out.effects, vec![SideEffect::StopSound(SoundType::Game)]);
    let out = game.run(GameAction::NoInput, 16, 500);
    assert_eq!(out.effects, vec![SideEffect::StopSpeedTimer]);
    stops += count_timer_stops(&out.effects);
    let out = game.run(GameAction::NoInput, 16, 500);
    assert!(out.effects.is_empty());

    // Resume: the second and last start.
    let out = game.run(GameAction::PauseResume, 16, 500);
    starts += count_timer_starts(&out.effects);
    assert_eq!(game.game_state, GameState::Running);
    let out = game.run(GameAction::NoInput, 16, 500);
    assert_eq!(out.effects, vec![SideEffect::PlaySound(SoundType::Game, true)]);
    starts += count_timer_starts(&out.effects);

    assert_eq!(starts, 2);
    assert_eq!(stops, 1);
}

#[test]
fn score_frozen_in_pause_and_game_over() {
    let mut game = Game::new(1);
    game.run(GameAction::PauseResume, 0, 500);
    for _ in 0..5 {
        game.run(GameAction::NoInput, 0, 500);
    }
    assert_eq!(game.score, 10);

    // The frame that takes the pause action is itself still a Running frame
    // and scores once more; from the next tick on the score is frozen.
    game.run(GameAction::PauseResume, 0, 500);
    assert_eq!(game.game_state, GameState::Pause);
    let running_score = game.score;
    assert_eq!(running_score, 12);
    for _ in 0..7 {
        game.run(GameAction::NoInput, 16, 500);
        assert_eq!(game.score, running_score);
    }

    game.run(GameAction::PauseResume, 0, 500);
    assert_eq!(game.game_state, GameState::Running);
    game.bot_manager.bot_car_list.push(colliding_bot());
    game.run(GameAction::NoInput, 0, 500);
    assert_eq!(game.game_state, GameState::GameOver);
    let final_score = game.score;
    for _ in 0..7 {
        game.run(GameAction::NoInput, 16, 500);
        assert_eq!(game.score, final_score);
    }
}

#[test]
fn mute_toggles_ahead_of_everything() {
    let mut game = Game::new(1);
    let out = game.run(GameAction::Mute, 16, 500);
    assert_eq!(out.effects, vec![SideEffect::ToggleMute]);
    assert_eq!(game.game_state, GameState::NotStarted);
}

#[test]
fn player_lane_transitions_are_validated() {
    assert_eq!(Game::get_destination_way(GameAction::Up, Way::Center), Some(Way::Upper));
    assert_eq!(Game::get_destination_way(GameAction::Up, Way::Lower), Some(Way::Center));
    assert_eq!(Game::get_destination_way(GameAction::Up, Way::Upper), None);
    assert_eq!(Game::get_destination_way(GameAction::Down, Way::Upper), Some(Way::Center));
    assert_eq!(Game::get_destination_way(GameAction::Down, Way::Center), Some(Way::Lower));
    assert_eq!(Game::get_destination_way(GameAction::Down, Way::Lower), None);
    assert_eq!(Game::get_destination_way(GameAction::NoInput, Way::Center), None);
    assert_eq!(Game::get_destination_way(GameAction::PauseResume, Way::Center), None);
}

#[test]
fn steering_moves_the_player_during_a_round() {
    let mut game = Game::new(1);
    game.run(GameAction::PauseResume, 0, 500);
    game.run(GameAction::Up, 0, 500);
    assert_eq!(game.player_car.get_way(), Way::Upper);
    // Another Up at the track edge is ignored.
    game.run(GameAction::Up, 0, 500);
    assert_eq!(game.player_car.get_way(), Way::Upper);
    game.run(GameAction::Down, 0, 500);
    assert_eq!(game.player_car.get_way(), Way::Center);
    game.run(GameAction::Down, 0, 500);
    assert_eq!(game.player_car.get_way(), Way::Lower);
    game.run(GameAction::Down, 0, 500);
    assert_eq!(game.player_car.get_way(), Way::Lower);
}

#[test]
fn pause_wins_over_a_same_frame_collision() {
    // The collision is captured, but the pause action decides the state.
    let mut game = Game::new(1);
    game.run(GameAction::PauseResume, 0, 500);
    game.run(GameAction::NoInput, 0, 500);
    game.bot_manager.bot_car_list.push(colliding_bot());
    game.run(GameAction::PauseResume, 0, 500);
    assert_eq!(game.game_state, GameState::Pause);
    assert_eq!(game.game_over_collision, Some((Way::Center, 387_500)));
}

#[test]
fn score_saturates_instead_of_overflowing() {
    let mut game = Game::new(1);
    game.run(GameAction::PauseResume, 0, 1_000_000);
    game.score = u32::MAX - 1;
    game.run(GameAction::NoInput, 0, 1_000_000);
    assert_eq!(game.score, u32::MAX);
    game.run(GameAction::NoInput, 0, 1_000_000);
    assert_eq!(game.score, u32::MAX);
}

#[test]
fn simulated_clock_saturates_instead_of_overflowing() {
    let mut game = Game::new(1);
    game.run(GameAction::PauseResume, 0, 500);
    game.elapsed_ms = u64::MAX - 10;
    game.run(GameAction::NoInput, 100, 500);
    assert_eq!(game.elapsed_ms, u64::MAX);
    game.run(GameAction::NoInput, 100, 500);
    assert_eq!(game.elapsed_ms, u64::MAX);
}

#[test]
fn menu_music_returns_when_leaving_game_over() {
    let mut game = Game::new(1);
    game.run(GameAction::PauseResume, 0, 500);
    game.bot_manager.bot_car_list.push(colliding_bot());
    game.run(GameAction::NoInput, 0, 500);
    assert_eq!(game.game_state, GameState::GameOver);
    let out = game.run(GameAction::NoInput, 0, 500);
    assert_eq!(
        out.effects,
        vec![
            SideEffect::StopSound(SoundType::Game),
            SideEffect::PlaySound(SoundType::GameOver, false),
            SideEffect::StopSpeedTimer,
        ]
    );
    game.run(GameAction::PauseResume, 0, 500);
    assert_eq!(game.game_state, GameState::NotStarted);
    // The tick after returning to the menu is its entrance: menu music.
    let out = game.run(GameAction::NoInput, 16, 500);
    assert_eq!(out.effects, vec![SideEffect::PlaySound(SoundType::Menu, true)]);
}
