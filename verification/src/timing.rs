//! Fixed-rate cadences, driven off the frame clock.
//!
//! A cadence accumulates elapsed frame time and fires when a full period has
//! passed. However many periods elapse within one frame, it fires at most
//! once that frame, and the surplus beyond the last whole period is kept, so
//! per-frame work stays bounded at any frame rate.

use vstd::prelude::*;

verus! {

/// Largest admissible cadence period, so that the accumulator stays far
/// from the top of `u64`.
pub const MAX_PERIOD_MS: u64 = 1_000_000_000;

/// A repeating fixed-period timer. `elapsed_ms` is the time accumulated
/// since it last fired, always less than `period_ms`.
#[derive(Clone, Copy, PartialEq, Eq, Structural, Debug)]
pub struct Cadence {
    pub period_ms: u64,
    pub elapsed_ms: u64,
}

impl Cadence {
    /// A cadence is well formed when its period is positive, at most
    /// `MAX_PERIOD_MS`, and its accumulator has not yet reached the period.
    pub open spec fn wf(self) -> bool {
        1 <= self.period_ms <= MAX_PERIOD_MS
        && self.elapsed_ms < self.period_ms
    }

    /// Whether advancing by `dt_ms` completes at least one full period.
    pub open spec fn fires(self, dt_ms: u64) -> bool {
        self.elapsed_ms + dt_ms >= self.period_ms
    }

    /// The cadence after advancing by `dt_ms`: the accumulator grows by
    /// `dt_ms` and, on firing, is reduced modulo the period.
    pub open spec fn stepped(self, dt_ms: u64) -> Cadence {
        Cadence {
            period_ms: self.period_ms,
            elapsed_ms: if self.fires(dt_ms) {
                ((self.elapsed_ms + dt_ms) % (self.period_ms as int)) as u64
            } else {
                (self.elapsed_ms + dt_ms) as u64
            },
        }
    }

    /// A fresh cadence with the given period and an empty accumulator.
    pub fn new(period_ms: u64) -> (c: Cadence)
        requires
            1 <= period_ms <= MAX_PERIOD_MS,
        ensures
            c == (Cadence { period_ms, elapsed_ms: 0u64 }),
            c.wf(),
    {
        Cadence { period_ms, elapsed_ms: 0 }
    }

    /// Advance by `dt_ms` of frame time; report whether the cadence fired.
    pub fn tick(&mut self, dt_ms: u64) -> (fired: bool)
        requires
            old(self).wf(),
            dt_ms <= crate::params::MAX_FRAME_MS,
        ensures
            fired == old(self).fires(dt_ms),
            *final(self) == old(self).stepped(dt_ms),
            final(self).wf(),
    {
        let total: u64 = self.elapsed_ms + dt_ms;
        if total >= self.period_ms {
            self.elapsed_ms = total % self.period_ms;
            true
        } else {
            self.elapsed_ms = total;
            false
        }
    }
}

} // verus!
