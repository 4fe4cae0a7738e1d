//! Core of a three-lane dodging game: the traffic spawner with its
//! anti-clustering rule, the bot-vehicle kinematics and collision test, the
//! round state machine with entrance-gated side effects, and the model of the
//! background speed-progression timer.
//!
//! Rendering, audio, the keyboard-polling thread and the real timer thread are
//! outside collaborators: they live in the surrounding binary, which drives
//! [`game::Game::run`] once per frame and performs the side effects it
//! returns.

pub mod background;
pub mod bot_manager;
pub mod car;
pub mod config;
pub mod game;
pub mod keyboard;
pub mod rusty_error;
pub mod timer;
