use vstd::prelude::*;

verus! {

/// Period of the soft-drop pulse, in milliseconds.
pub const SOFT_DROP_PERIOD_MS: u64 = 750;

/// The soft-drop clock: accumulates elapsed time and fires once the fixed
/// period has passed.  The controller advances it exactly once per tick and
/// resets it whenever a down-move consumes it, from either source.
#[derive(Clone, Copy, PartialEq, Eq, Structural, Debug)]
pub struct GameClock {
    pub elapsed_ms: u64,
    pub period_ms: u64,
}

/// The clock after `delta_ms` more milliseconds have passed; accumulation
/// saturates rather than wraps.
pub open spec fn spec_advanced(clock: GameClock, delta_ms: u64) -> GameClock {
    GameClock {
        elapsed_ms: clock.elapsed_ms.saturating_add(delta_ms),
        period_ms: clock.period_ms,
    }
}

impl GameClock {
    /// Whether a full period has accumulated, so the pulse fires.
    pub open spec fn finished(self) -> bool {
        self.elapsed_ms >= self.period_ms
    }

    /// A fresh clock with nothing accumulated.
    pub fn new(period_ms: u64) -> (clock: GameClock)
        ensures
            clock.elapsed_ms == 0,
            clock.period_ms == period_ms,
    {
        GameClock { elapsed_ms: 0, period_ms }
    }

    /// Accumulate `delta_ms` more elapsed milliseconds.
    pub fn advance(&mut self, delta_ms: u64)
        ensures
            *final(self) == spec_advanced(*old(self), delta_ms),
    {
        self.elapsed_ms = self.elapsed_ms.saturating_add(delta_ms);
    }

    /// Whether the pulse fires now.
    pub fn is_finished(&self) -> (fires: bool)
        ensures
            fires == self.finished(),
    {
        self.elapsed_ms >= self.period_ms
    }

    /// Start a new period.
    pub fn reset(&mut self)
        ensures
            final(self).elapsed_ms == 0,
            final(self).period_ms == old(self).period_ms,
    {
        self.elapsed_ms = 0;
    }
}

} // verus!
