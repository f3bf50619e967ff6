//! Core logic of a small two-paddle Pong game.
//!
//! The ball and the paddles move on an integer grid: the ball one unit per
//! frame on each axis, the paddles by a velocity that decays back to zero.
//! Scoring, the serve after a point, and the timer that holds the winner's
//! name on screen for a moment are all part of [`game::GameState::step`],
//! which advances the game by exactly one frame.
//!
//! Rendering, windowing and the clock live outside this crate: a front end
//! feeds key events into [`game::GameState::apply_key`], calls `step` once
//! per frame with a monotonic clock reading, and draws from the public
//! fields of the state.

pub mod court;
pub mod display;
pub mod oscillator;
pub mod paddle;
pub mod ball;
pub mod game;
