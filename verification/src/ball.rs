//! The ball moves one unit per frame along each axis, turning around at the
//! walls, at the score lines, and off a paddle face that it meets.

use vstd::prelude::*;
use crate::court::{BALL_STEP, PADDLE_LINE, PADDLE_SPAN, SCORE_LINE, WALL};

verus! {

/// The ball: its position and the direction it is heading on each axis.
#[derive(Clone, Copy, PartialEq, Eq, Structural, Debug)]
pub struct Ball {
    /// Positive x lies on player 2's side.
    pub x: i32,
    /// Positive y lies toward the bottom wall.
    pub y: i32,
    /// Whether the ball moves toward positive x next frame.
    pub going_right: bool,
    /// Whether the ball moves toward positive y next frame.
    pub going_down: bool,
}

impl Ball {
    /// The ball sits between the walls, and on a wall only while heading
    /// back in.  Every reachable ball state satisfies this.
    pub open spec fn between_walls(self) -> bool {
        &&& -WALL <= self.y <= WALL
        &&& self.y == WALL ==> self.going_down
        &&& self.y == -WALL ==> !self.going_down
    }

    /// The ball sits between the score lines, and on one only while heading
    /// back in; together with [`Ball::between_walls`], the invariant that
    /// [`Ball::advance`] preserves.
    pub open spec fn on_court(self) -> bool {
        &&& -SCORE_LINE <= self.x <= SCORE_LINE
        &&& self.x == SCORE_LINE ==> self.going_right
        &&& self.x == -SCORE_LINE ==> !self.going_right
        &&& self.between_walls()
    }

    /// The ball after one frame of flight: on each axis, the direction flips
    /// when the ball stands on the boundary, then the ball moves one step
    /// the (possibly new) way.
    pub open spec fn spec_advance(b: Ball) -> Ball {
        let turned_x: bool = if b.x == -SCORE_LINE || b.x == SCORE_LINE {
            !b.going_right
        } else {
            b.going_right
        };
        let x: i32 = if turned_x {
            (b.x + BALL_STEP) as i32
        } else {
            (b.x - BALL_STEP) as i32
        };
        let turned_y: bool = if b.y == -WALL || b.y == WALL {
            !b.going_down
        } else {
            b.going_down
        };
        let y: i32 = if turned_y {
            (b.y + BALL_STEP) as i32
        } else {
            (b.y - BALL_STEP) as i32
        };
        Ball { x: x, y: y, going_right: turned_x, going_down: turned_y }
    }

    /// The ball after the paddle check: while crossing a paddle's plane
    /// within the stretch its face covers, the ball turns around on the x
    /// axis.  `pos1` and `pos2` are the two paddles' displacements.
    pub open spec fn spec_deflect(b: Ball, pos1: i32, pos2: i32) -> Ball {
        let met_left: bool = b.x == -PADDLE_LINE
            && pos1 - SCORE_LINE <= b.y <= pos1 - PADDLE_SPAN;
        let turned_once: bool = if met_left {
            !b.going_right
        } else {
            b.going_right
        };
        let met_right: bool = b.x == PADDLE_LINE
            && PADDLE_SPAN - pos2 <= b.y <= SCORE_LINE - pos2;
        let turned: bool = if met_right {
            !turned_once
        } else {
            turned_once
        };
        Ball { going_right: turned, ..b }
    }

    /// A ball resting on the centre spot, heading for player 1's corner.
    pub fn new() -> (b: Ball)
        ensures
            b.x == 0,
            b.y == 0,
            !b.going_right,
            !b.going_down,
            b.on_court(),
    {
        Ball { x: 0, y: 0, going_right: false, going_down: false }
    }

    /// One frame of flight; see [`Ball::spec_advance`].
    pub fn advance(&mut self)
        requires
            old(self).on_court(),
        ensures
            *final(self) == Ball::spec_advance(*old(self)),
            final(self).on_court(),
    {
        if self.x == -SCORE_LINE || self.x == SCORE_LINE {
            self.going_right = !self.going_right;
        }
        if self.going_right {
            self.x = self.x + BALL_STEP;
        } else {
            self.x = self.x - BALL_STEP;
        }
        if self.y == -WALL || self.y == WALL {
            self.going_down = !self.going_down;
        }
        if self.going_down {
            self.y = self.y + BALL_STEP;
        } else {
            self.y = self.y - BALL_STEP;
        }
    }

    /// The paddle check; see [`Ball::spec_deflect`].
    pub fn deflect(&mut self, pos1: i32, pos2: i32)
        requires
            old(self).on_court(),
            0 <= pos1 <= crate::court::PADDLE_TRAVEL,
            0 <= pos2 <= crate::court::PADDLE_TRAVEL,
        ensures
            *final(self) == Ball::spec_deflect(*old(self), pos1, pos2),
            final(self).on_court(),
    {
        if self.x == -PADDLE_LINE {
            if pos1 - SCORE_LINE <= self.y && self.y <= pos1 - PADDLE_SPAN {
                self.going_right = !self.going_right;
            }
        }
        if self.x == PADDLE_LINE {
            if PADDLE_SPAN - pos2 <= self.y && self.y <= SCORE_LINE - pos2 {
                self.going_right = !self.going_right;
            }
        }
    }
}

} // verus!
