//! One match of Pong: the ball, the two paddles, the scores, and the pause
//! that shows off a winner before the next match.
//!
//! [`GameState::step`] advances the whole match by one frame and is stated
//! exactly by [`GameState::spec_step`]; [`GameState::apply_key`] folds one
//! key event into the paddles' velocities.  The invariant [`GameState::wf`]
//! holds of the starting state and is preserved by both.

use vstd::prelude::*;
use crate::ball::Ball;
use crate::court::{COAST_SPEED, PADDLE_TRAVEL, SCORE_LINE, SCORE_TO_WIN, TAP_SPEED, WIN_HOLD_MS};
use crate::oscillator::{spec_sweep, sweep, sweep_on_track};
use crate::paddle::Paddle;

verus! {

/// The four paddle controls.  "Up" and "down" name the direction the paddle
/// face moves on screen; for player 2 the displacement is drawn mirrored, so
/// its up key raises the displacement while player 1's lowers it.
#[derive(Clone, Copy, PartialEq, Eq, Structural, Debug)]
pub enum PaddleKey {
    Player1Up,
    Player1Down,
    Player2Up,
    Player2Down,
}

/// Whether a key went down or came back up.
#[derive(Clone, Copy, PartialEq, Eq, Structural, Debug)]
pub enum KeyState {
    Pressed,
    Released,
}

/// The whole state of a match between two frames.
#[derive(Clone, Copy, PartialEq, Eq, Structural, Debug)]
pub struct GameState {
    /// The ball in flight.
    pub ball: Ball,
    /// The paddle on the negative-x side.
    pub player1: Paddle,
    /// The paddle on the positive-x side.
    pub player2: Paddle,
    /// Points taken by player 1 in this match.
    pub score1: u8,
    /// Points taken by player 2 in this match.
    pub score2: u8,
    /// Whether player 2's paddle sweeps on its own instead of obeying keys.
    pub single_player: bool,
    /// In a single-player match, the direction of the unmanned paddle's
    /// sweep; unused otherwise.
    pub auto_rising: bool,
    /// Whether the match is over and the winner is being shown.
    pub win_hold: bool,
    /// The clock reading at the moment the match was won; meaningful only
    /// while `win_hold` is set.
    pub win_since_ms: u64,
}

impl GameState {
    /// Every state reachable from [`GameState::new`] satisfies this: the
    /// ball is on the court, the paddles within their travel, the scores
    /// within the match, the winner flag agrees with the scores, a won
    /// match keeps the ball on the centre spot, and an unmanned paddle is
    /// sweeping on track with its velocity at rest.
    pub open spec fn wf(self) -> bool {
        &&& self.ball.on_court()
        &&& self.player1.wf()
        &&& self.player2.wf()
        &&& self.score1 <= SCORE_TO_WIN
        &&& self.score2 <= SCORE_TO_WIN
        &&& (self.win_hold <==> self.score1 == SCORE_TO_WIN || self.score2 == SCORE_TO_WIN)
        &&& self.win_hold ==> self.ball.x == 0 && self.ball.y == 0
        &&& self.single_player ==> self.player2.vel == 0
            && sweep_on_track(self.player2.pos, self.auto_rising)
    }

    /// The state a match starts from: ball on the centre spot, paddles at
    /// rest, no points taken.
    pub open spec fn spec_init(single_player: bool) -> GameState {
        GameState {
            ball: Ball { x: 0, y: 0, going_right: false, going_down: false },
            player1: Paddle { pos: 0, vel: 0 },
            player2: Paddle { pos: 0, vel: 0 },
            score1: 0,
            score2: 0,
            single_player: single_player,
            auto_rising: false,
            win_hold: false,
            win_since_ms: 0,
        }
    }

    /// The state after the points are settled: a ball on player 1's score
    /// line is a point for player 2 and vice versa, and a point puts the
    /// ball back on the centre spot with its heading kept.
    pub open spec fn spec_settle(g: GameState) -> GameState {
        let left: GameState = if g.ball.x == -SCORE_LINE {
            GameState {
                score2: (g.score2 + 1) as u8,
                ball: Ball { x: 0, y: 0, ..g.ball },
                ..g
            }
        } else {
            g
        };
        if left.ball.x == SCORE_LINE {
            GameState {
                score1: (left.score1 + 1) as u8,
                ball: Ball { x: 0, y: 0, ..left.ball },
                ..left
            }
        } else {
            left
        }
    }

    /// The state after the unmanned paddle's move: in a single-player match
    /// player 2's paddle sweeps one unit, elsewhere nothing changes.
    pub open spec fn spec_auto_move(g: GameState) -> GameState {
        if g.single_player {
            let swept: (i32, bool) = spec_sweep(g.player2.pos, g.auto_rising);
            GameState {
                player2: Paddle { pos: swept.0, ..g.player2 },
                auto_rising: swept.1,
                ..g
            }
        } else {
            g
        }
    }

    /// The state after the winner check at clock reading `now_ms`: reaching
    /// the winning score starts the hold; while the hold lasts the ball
    /// stays on the centre spot; once the hold has run longer than
    /// `WIN_HOLD_MS` the scores clear and a new match begins.
    pub open spec fn spec_hold(g: GameState, now_ms: u64) -> GameState {
        let started: GameState = if (g.score1 == SCORE_TO_WIN || g.score2 == SCORE_TO_WIN)
            && !g.win_hold {
            GameState { win_hold: true, win_since_ms: now_ms, ..g }
        } else {
            g
        };
        if started.win_hold {
            let frozen: GameState = GameState {
                ball: Ball { x: 0, y: 0, ..started.ball },
                ..started
            };
            if now_ms - frozen.win_since_ms > WIN_HOLD_MS {
                GameState { score1: 0, score2: 0, win_hold: false, ..frozen }
            } else {
                frozen
            }
        } else {
            started
        }
    }

    /// One whole frame: the ball flies, points are settled, the unmanned
    /// paddle sweeps, both paddles glide, the ball meets the paddles, and
    /// the winner check runs.
    pub open spec fn spec_step(g: GameState, now_ms: u64) -> GameState {
        let moved: GameState = GameState { ball: Ball::spec_advance(g.ball), ..g };
        let settled: GameState = Self::spec_settle(moved);
        let swept: GameState = Self::spec_auto_move(settled);
        let glided: GameState = GameState {
            player1: Paddle::spec_glide(swept.player1),
            player2: Paddle::spec_glide(swept.player2),
            ..swept
        };
        let deflected: GameState = GameState {
            ball: Ball::spec_deflect(glided.ball, glided.player1.pos, glided.player2.pos),
            ..glided
        };
        Self::spec_hold(deflected, now_ms)
    }

    /// The state after one key event.  A press kicks the velocity by
    /// `TAP_SPEED` toward the key's direction; a release leaves the paddle
    /// coasting at `COAST_SPEED` that way.  In a single-player match player
    /// 2's keys do nothing.
    pub open spec fn spec_apply_key(g: GameState, key: PaddleKey, state: KeyState) -> GameState {
        match (key, state) {
            (PaddleKey::Player1Up, KeyState::Pressed) => GameState {
                player1: Paddle { vel: (g.player1.vel - TAP_SPEED) as i32, ..g.player1 },
                ..g
            },
            (PaddleKey::Player1Up, KeyState::Released) => GameState {
                player1: Paddle { vel: (-COAST_SPEED) as i32, ..g.player1 },
                ..g
            },
            (PaddleKey::Player1Down, KeyState::Pressed) => GameState {
                player1: Paddle { vel: (g.player1.vel + TAP_SPEED) as i32, ..g.player1 },
                ..g
            },
            (PaddleKey::Player1Down, KeyState::Released) => GameState {
                player1: Paddle { vel: COAST_SPEED, ..g.player1 },
                ..g
            },
            (PaddleKey::Player2Up, KeyState::Pressed) => if !g.single_player {
                GameState {
                    player2: Paddle { vel: (g.player2.vel + TAP_SPEED) as i32, ..g.player2 },
                    ..g
                }
            } else {
                g
            },
            (PaddleKey::Player2Up, KeyState::Released) => if !g.single_player {
                GameState { player2: Paddle { vel: COAST_SPEED, ..g.player2 }, ..g }
            } else {
                g
            },
            (PaddleKey::Player2Down, KeyState::Pressed) => if !g.single_player {
                GameState {
                    player2: Paddle { vel: (g.player2.vel - TAP_SPEED) as i32, ..g.player2 },
                    ..g
                }
            } else {
                g
            },
            (PaddleKey::Player2Down, KeyState::Released) => if !g.single_player {
                GameState { player2: Paddle { vel: (-COAST_SPEED) as i32, ..g.player2 }, ..g }
            } else {
                g
            },
        }
    }

    /// The key event leaves the touched velocity within the machine's
    /// range.  Only presses move a velocity by more than a constant, so
    /// only they need room.
    pub open spec fn key_in_range(g: GameState, key: PaddleKey, state: KeyState) -> bool {
        match (key, state) {
            (PaddleKey::Player1Up, KeyState::Pressed) => g.player1.vel >= i32::MIN + TAP_SPEED,
            (PaddleKey::Player1Down, KeyState::Pressed) => g.player1.vel <= i32::MAX - TAP_SPEED,
            (PaddleKey::Player2Up, KeyState::Pressed) => !g.single_player
                ==> g.player2.vel <= i32::MAX - TAP_SPEED,
            (PaddleKey::Player2Down, KeyState::Pressed) => !g.single_player
                ==> g.player2.vel >= i32::MIN + TAP_SPEED,
            _ => true,
        }
    }

    /// A fresh match; see [`GameState::spec_init`].
    pub fn new(single_player: bool) -> (g: GameState)
        ensures
            g == GameState::spec_init(single_player),
            g.wf(),
    {
        GameState {
            ball: Ball::new(),
            player1: Paddle::new(),
            player2: Paddle::new(),
            score1: 0,
            score2: 0,
            single_player: single_player,
            auto_rising: false,
            win_hold: false,
            win_since_ms: 0,
        }
    }

    /// Settles the points; see [`GameState::spec_settle`].
    fn settle_points(&mut self)
        requires
            old(self).score1 < u8::MAX,
            old(self).score2 < u8::MAX,
        ensures
            *final(self) == GameState::spec_settle(*old(self)),
    {
        if self.ball.x == -SCORE_LINE {
            self.score2 = self.score2 + 1;
            self.ball.x = 0;
            self.ball.y = 0;
        }
        if self.ball.x == SCORE_LINE {
            self.score1 = self.score1 + 1;
            self.ball.x = 0;
            self.ball.y = 0;
        }
    }

    /// Moves the unmanned paddle; see [`GameState::spec_auto_move`].
    fn auto_move(&mut self)
        requires
            old(self).single_player ==> sweep_on_track(
                old(self).player2.pos,
                old(self).auto_rising,
            ),
        ensures
            *final(self) == GameState::spec_auto_move(*old(self)),
    {
        if self.single_player {
            let swept: (i32, bool) = sweep(self.player2.pos, self.auto_rising);
            self.player2.pos = swept.0;
            self.auto_rising = swept.1;
        }
    }

    /// Runs the winner check; see [`GameState::spec_hold`].
    fn hold_winner(&mut self, now_ms: u64)
        requires
            old(self).win_hold ==> old(self).win_since_ms <= now_ms,
        ensures
            *final(self) == GameState::spec_hold(*old(self), now_ms),
    {
        if (self.score1 == SCORE_TO_WIN || self.score2 == SCORE_TO_WIN) && !self.win_hold {
            self.win_hold = true;
            self.win_since_ms = now_ms;
        }
        if self.win_hold {
            self.ball.x = 0;
            self.ball.y = 0;
            if now_ms - self.win_since_ms > WIN_HOLD_MS {
                self.score1 = 0;
                self.score2 = 0;
                self.win_hold = false;
            }
        }
    }

    /// Advances the match by one frame.  `now_ms` is a reading of the front
    /// end's monotonic clock, so it never falls behind the reading stored
    /// when the match was won.
    pub fn step(&mut self, now_ms: u64)
        requires
            old(self).wf(),
            old(self).player1.vel <= i32::MAX - PADDLE_TRAVEL,
            old(self).player2.vel <= i32::MAX - PADDLE_TRAVEL,
            old(self).win_hold ==> old(self).win_since_ms <= now_ms,
        ensures
            *final(self) == GameState::spec_step(*old(self), now_ms),
            final(self).wf(),
            final(self).player1.vel <= i32::MAX - PADDLE_TRAVEL,
            final(self).player2.vel <= i32::MAX - PADDLE_TRAVEL,
            final(self).win_hold ==> final(self).win_since_ms <= now_ms,
    {
        self.ball.advance();
        self.settle_points();
        self.auto_move();
        self.player1.glide();
        self.player2.glide();
        let pos1: i32 = self.player1.pos;
        let pos2: i32 = self.player2.pos;
        self.ball.deflect(pos1, pos2);
        self.hold_winner(now_ms);
    }

    /// Folds one key event into the paddles' velocities; see
    /// [`GameState::spec_apply_key`].
    pub fn apply_key(&mut self, key: PaddleKey, state: KeyState)
        requires
            old(self).wf(),
            GameState::key_in_range(*old(self), key, state),
        ensures
            *final(self) == GameState::spec_apply_key(*old(self), key, state),
            final(self).wf(),
    {
        match (key, state) {
            (PaddleKey::Player1Up, KeyState::Pressed) => {
                self.player1.kick(-TAP_SPEED);
            }
            (PaddleKey::Player1Up, KeyState::Released) => {
                self.player1.coast(-COAST_SPEED);
            }
            (PaddleKey::Player1Down, KeyState::Pressed) => {
                self.player1.kick(TAP_SPEED);
            }
            (PaddleKey::Player1Down, KeyState::Released) => {
                self.player1.coast(COAST_SPEED);
            }
            (PaddleKey::Player2Up, KeyState::Pressed) => {
                if !self.single_player {
                    self.player2.kick(TAP_SPEED);
                }
            }
            (PaddleKey::Player2Up, KeyState::Released) => {
                if !self.single_player {
                    self.player2.coast(COAST_SPEED);
                }
            }
            (PaddleKey::Player2Down, KeyState::Pressed) => {
                if !self.single_player {
                    self.player2.kick(-TAP_SPEED);
                }
            }
            (PaddleKey::Player2Down, KeyState::Released) => {
                if !self.single_player {
                    self.player2.coast(-COAST_SPEED);
                }
            }
        }
    }
}

} // verus!
