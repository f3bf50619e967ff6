//! A value that sweeps back and forth over the paddle's travel, one unit per
//! tick.  It drives the endless demonstration sweep and, in a single-player
//! match, the unmanned paddle.

use vstd::prelude::*;
use crate::court::PADDLE_TRAVEL;

verus! {

/// One tick of the sweep: at either end of the travel the direction flips,
/// then the position moves one unit the (possibly new) way.
pub open spec fn spec_sweep(pos: i32, rising: bool) -> (i32, bool) {
    let turned: bool = if pos == PADDLE_TRAVEL || pos == 0 {
        !rising
    } else {
        rising
    };
    let moved: i32 = if turned {
        (pos + 1) as i32
    } else {
        (pos - 1) as i32
    };
    (moved, turned)
}

/// The sweep is on track when the position lies within the travel and, at
/// either end, the direction points back inward.  Every reachable state of
/// the sweep satisfies this.
pub open spec fn sweep_on_track(pos: i32, rising: bool) -> bool {
    &&& 0 <= pos <= PADDLE_TRAVEL
    &&& pos == 0 ==> !rising
    &&& pos == PADDLE_TRAVEL ==> rising
}

/// Advances a sweeping position by one tick.
pub fn sweep(pos: i32, rising: bool) -> (swept: (i32, bool))
    requires
        sweep_on_track(pos, rising),
    ensures
        swept == spec_sweep(pos, rising),
        sweep_on_track(swept.0, swept.1),
{
    let turned: bool = if pos == PADDLE_TRAVEL || pos == 0 {
        !rising
    } else {
        rising
    };
    let moved: i32 = if turned {
        pos + 1
    } else {
        pos - 1
    };
    (moved, turned)
}

/// A position bouncing between `0` and `PADDLE_TRAVEL`.
#[derive(Clone, Copy, PartialEq, Eq, Structural, Debug)]
pub struct Oscillator {
    /// Where the sweep stands now.
    pub pos: i32,
    /// Whether the next tick moves the position upward.
    pub rising: bool,
}

impl Oscillator {
    /// Every reachable oscillator state: see [`sweep_on_track`].
    pub open spec fn wf(self) -> bool {
        sweep_on_track(self.pos, self.rising)
    }

    /// The state after one tick.
    pub open spec fn spec_tick(o: Oscillator) -> Oscillator {
        let swept: (i32, bool) = spec_sweep(o.pos, o.rising);
        Oscillator { pos: swept.0, rising: swept.1 }
    }

    /// A sweep resting at the bottom of the travel, about to rise.
    pub fn new() -> (o: Oscillator)
        ensures
            o.pos == 0,
            !o.rising,
            o.wf(),
    {
        Oscillator { pos: 0, rising: false }
    }

    /// Moves the sweep one unit, turning around at either end of the travel.
    pub fn tick(&mut self)
        requires
            old(self).wf(),
        ensures
            *final(self) == Oscillator::spec_tick(*old(self)),
            final(self).wf(),
    {
        let swept: (i32, bool) = sweep(self.pos, self.rising);
        self.pos = swept.0;
        self.rising = swept.1;
    }
}

} // verus!
