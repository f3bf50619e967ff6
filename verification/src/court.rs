//! Dimensions of the playfield and the fixed rules of a match.
//!
//! The court is an integer grid centred on the origin.  The x axis runs
//! between the two score lines, the y axis between the two walls.  A paddle's
//! position is its displacement from its resting place, between `0` and
//! `PADDLE_TRAVEL`.

use vstd::prelude::*;

verus! {

/// The ball scores when its x coordinate reaches `SCORE_LINE` (a point for
/// player 1) or `-SCORE_LINE` (a point for player 2).
pub const SCORE_LINE: i32 = 100;

/// The ball bounces off the walls at y = `WALL` and y = `-WALL`.
pub const WALL: i32 = 97;

/// The x coordinate of the plane where the ball can meet player 2's paddle;
/// player 1's paddle stands at `-PADDLE_LINE`.
pub const PADDLE_LINE: i32 = 77;

/// A paddle's displacement stays between `0` and `PADDLE_TRAVEL`.
pub const PADDLE_TRAVEL: i32 = 150;

/// The stretch of the y axis that a paddle face covers, measured from the
/// score line on its side: player 1's face spans
/// `[pos - SCORE_LINE, pos - PADDLE_SPAN]` and player 2's spans
/// `[PADDLE_SPAN - pos, SCORE_LINE - pos]`, where `pos` is the paddle's
/// displacement.
pub const PADDLE_SPAN: i32 = 50;

/// How far the ball moves along each axis in one frame.
pub const BALL_STEP: i32 = 1;

/// Each key press adds this much to the paddle's speed.
pub const TAP_SPEED: i32 = 2;

/// Releasing a key leaves the paddle coasting at this speed, which then
/// decays by one unit per frame.
pub const COAST_SPEED: i32 = 4;

/// First score to reach this total wins the match.
pub const SCORE_TO_WIN: u8 = 9;

/// After a win the scores freeze and the ball stays on the centre spot for
/// this long, in milliseconds, before a new match starts.
pub const WIN_HOLD_MS: u64 = 3000;

} // verus!
