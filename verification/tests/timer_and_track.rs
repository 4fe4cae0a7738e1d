use rusty_corks::background::Background;
use rusty_corks::config::{MAX_GAME_SPEED, WINDOW_WIDTH};
use rusty_corks::rusty_error::{LockError, ReadDirectoryError, RustyError};
use rusty_corks::timer::{remaining_delay_ms, speed_up, Timer, TimerData};

#[test]
fn speed_up_adds_the_fixed_step() {
    let mut data = TimerData::GameSpeed { speed: 500 };
    speed_up(&mut data);
    assert_eq!(data, TimerData::GameSpeed { speed: 501 });
    speed_up(&mut data);
    assert_eq!(data, TimerData::GameSpeed { speed: 502 });
}

#[test]
fn speed_up_saturates_at_the_cap() {
    let mut data = TimerData::GameSpeed { speed: MAX_GAME_SPEED };
    speed_up(&mut data);
    assert_eq!(data, TimerData::GameSpeed { speed: MAX_GAME_SPEED });
    let mut near = TimerData::GameSpeed { speed: MAX_GAME_SPEED - 1 };
    speed_up(&mut near);
    assert_eq!(near, TimerData::GameSpeed { speed: MAX_GAME_SPEED });
}

#[test]
fn no_increment_reaches_a_stopped_timer() {
    // Stopping is synchronous: a tick arriving after stop must not mutate
    // the shared speed, so a read right after stop sees no late increment.
    let mut timer = Timer::new(TimerData::GameSpeed { speed: 300 });
    timer.start(100);
    timer.tick();
    assert_eq!(timer.timer_data, TimerData::GameSpeed { speed: 301 });
    timer.stop();
    let read_after_stop = timer.timer_data;
    timer.tick();
    timer.tick();
    assert_eq!(timer.timer_data, read_after_stop);
    assert_eq!(timer.timer_data, TimerData::GameSpeed { speed: 301 });
}

#[test]
fn fresh_timer_does_not_tick() {
    let mut timer = Timer::new(TimerData::GameSpeed { speed: 300 });
    assert!(!timer.running);
    timer.tick();
    assert_eq!(timer.timer_data, TimerData::GameSpeed { speed: 300 });
}

#[test]
fn sleep_is_shortened_by_the_callback_cost() {
    assert_eq!(remaining_delay_ms(100, 0), 100);
    assert_eq!(remaining_delay_ms(100, 30), 70);
    assert_eq!(remaining_delay_ms(100, 100), 0);
    // A callback slower than the period leaves no sleep, not a panic.
    assert_eq!(remaining_delay_ms(100, 150), 0);
}

#[test]
fn background_slides_by_speed_times_time() {
    let mut background = Background::new();
    assert_eq!(background.x_position, 0);
    assert_eq!(background.speed, 300);
    background.move_texture(100);
    assert_eq!(background.x_position, -30_000);
    background.set_speed(500);
    background.move_texture(16);
    assert_eq!(background.x_position, -38_000);
}

#[test]
fn background_wraps_after_a_full_window() {
    let mut background = Background::new();
    background.set_speed(MAX_GAME_SPEED);
    // 1_000_000 px/s for 2 ms slides two window widths: wrap to the origin.
    background.move_texture(2);
    assert_eq!(background.x_position, 0);
    // Sliding to exactly the window edge does not wrap.
    let mut at_edge = Background::new();
    at_edge.set_speed(1_000);
    at_edge.move_texture(1_280);
    assert_eq!(at_edge.x_position, -WINDOW_WIDTH);
}

#[test]
fn error_messages() {
    let lock = RustyError::RustyLock(LockError { message: "poisoned".to_string() });
    assert_eq!(lock.message(), "Rusty lock error: poisoned");
    assert_eq!(RustyError::LaneNotFound.message(), "Lane not found");
    assert_eq!(RustyError::File.message(), "");
    assert_eq!(RustyError::Recv.message(), "");
    let read_dir = RustyError::ReadDirectory(ReadDirectoryError { message: "gone".to_string() });
    assert_eq!(read_dir.message(), "");
}
