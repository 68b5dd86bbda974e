//! The rules of a two-paddle Breakout game, kept apart from any engine.
//!
//! The crate holds the game as plain data and steps it with ordinary
//! function calls: a mode flag, the paddles, the ball, the arena borders,
//! the brick field and the main menu. Physics, rendering and input polling
//! are left to whatever engine drives it; the engine hands over window
//! sizes, key states, elapsed time and contact pairs, and mirrors the
//! entities it finds here.
//!
//! All lengths are whole numbers of thousandths of a world unit, and all
//! durations are whole microseconds, so every rule is exact integer
//! arithmetic.

pub mod app_state;
pub mod units;
pub mod entity;
pub mod error;
pub mod player;
pub mod ball;
pub mod world;
pub mod main_menu;
pub mod game;
pub mod schedule;
pub mod laws;
pub mod physics;

pub use crate::game::{StartGame, StopGame};
