//! A paddle slides along its score line.  Key presses kick its velocity up
//! or down; each frame the paddle glides by its velocity, which decays by
//! one unit toward zero, and the position is clamped to the travel.

use vstd::prelude::*;
use crate::court::PADDLE_TRAVEL;

verus! {

/// A paddle: its displacement from the resting place and its velocity.
#[derive(Clone, Copy, PartialEq, Eq, Structural, Debug)]
pub struct Paddle {
    /// Displacement from the resting place, between `0` and `PADDLE_TRAVEL`.
    pub pos: i32,
    /// Units of displacement the paddle gains next frame; decays toward zero.
    pub vel: i32,
}

impl Paddle {
    /// The position never leaves the travel.
    pub open spec fn wf(self) -> bool {
        0 <= self.pos <= PADDLE_TRAVEL
    }

    /// The paddle after one frame of gliding: the position moves by the
    /// velocity and is clamped to the travel on the side the paddle was
    /// heading for, while the velocity steps one unit toward zero.
    pub open spec fn spec_glide(p: Paddle) -> Paddle {
        if p.vel > 0 {
            let moved: int = p.pos + p.vel;
            let clamped: i32 = if moved > PADDLE_TRAVEL {
                PADDLE_TRAVEL
            } else {
                moved as i32
            };
            Paddle { pos: clamped, vel: (p.vel - 1) as i32 }
        } else if p.vel < 0 {
            let moved: int = p.pos + p.vel;
            let clamped: i32 = if moved < 0 {
                0
            } else {
                moved as i32
            };
            Paddle { pos: clamped, vel: (p.vel + 1) as i32 }
        } else {
            p
        }
    }

    /// A paddle resting at the bottom of its travel.
    pub fn new() -> (p: Paddle)
        ensures
            p.pos == 0,
            p.vel == 0,
            p.wf(),
    {
        Paddle { pos: 0, vel: 0 }
    }

    /// One frame of gliding; see [`Paddle::spec_glide`].
    pub fn glide(&mut self)
        requires
            old(self).wf(),
            old(self).vel <= i32::MAX - PADDLE_TRAVEL,
        ensures
            *final(self) == Paddle::spec_glide(*old(self)),
            final(self).wf(),
            final(self).vel <= i32::MAX - PADDLE_TRAVEL,
    {
        if self.vel > 0 {
            self.pos = self.pos + self.vel;
            self.vel = self.vel - 1;
            if self.pos > PADDLE_TRAVEL {
                self.pos = PADDLE_TRAVEL;
            }
        } else if self.vel < 0 {
            self.pos = self.pos + self.vel;
            self.vel = self.vel + 1;
            if self.pos < 0 {
                self.pos = 0;
            }
        }
    }

    /// A key press: the velocity changes by `amount` at once.
    pub fn kick(&mut self, amount: i32)
        requires
            i32::MIN <= old(self).vel + amount <= i32::MAX,
        ensures
            *final(self) == (Paddle { vel: (old(self).vel + amount) as i32, ..*old(self) }),
    {
        self.vel = self.vel + amount;
    }

    /// A key release: the paddle is left coasting at `speed`.
    pub fn coast(&mut self, speed: i32)
        ensures
            *final(self) == (Paddle { vel: speed, ..*old(self) }),
    {
        self.vel = speed;
    }
}

} // verus!
