use vstd::prelude::*;

verus! {

/// Fixed-timestep gate: accumulates real elapsed milliseconds and fires one
/// simulation step whenever the accumulated time passes the threshold, so the
/// ball's speed does not depend on the display's refresh rate.
#[derive(Clone, Copy, Debug, PartialEq, Eq, Structural)]
pub struct GameClock {
    /// Milliseconds accumulated since the last simulation step fired.
    pub accumulated: u64,
    /// A step fires once strictly more than this many milliseconds accumulate.
    pub threshold: u64,
}

impl GameClock {
    /// Between steps the accumulated time never sits above the threshold:
    /// any call that pushes it past the threshold resets it to zero.
    pub open spec fn wf(self) -> bool {
        self.accumulated <= self.threshold
    }

    /// Whether feeding `elapsed_ms` more milliseconds makes a step fire.
    pub open spec fn spec_fires(self, elapsed_ms: u64) -> bool {
        self.accumulated + elapsed_ms > self.threshold
    }

    pub fn new(threshold: u64) -> (clock: GameClock)
        ensures
            clock.accumulated == 0,
            clock.threshold == threshold,
            clock.wf(),
    {
        GameClock { accumulated: 0, threshold }
    }

    /// Adds the elapsed time; reports whether a simulation step should run
    /// now, and starts the accumulation over when it does.
    pub fn advance(&mut self, elapsed_ms: u64) -> (fired: bool)
        requires
            old(self).wf(),
            elapsed_ms <= u64::MAX - old(self).threshold,
        ensures
            fired == old(self).spec_fires(elapsed_ms),
            final(self).threshold == old(self).threshold,
            final(self).accumulated == if old(self).spec_fires(elapsed_ms) {
                0
            } else {
                old(self).accumulated + elapsed_ms
            },
            final(self).wf(),
    {
        self.accumulated = self.accumulated + elapsed_ms;
        if self.accumulated > self.threshold {
            self.accumulated = 0;
            true
        } else {
            false
        }
    }
}

} // verus!
