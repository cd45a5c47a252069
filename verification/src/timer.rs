//! A repeating countdown timer, measured in milliseconds. Each call to
//! [`RepeatTimer::tick`] adds the elapsed frame time; the timer fires whenever
//! the accumulated time reaches the period, and the remainder is carried over.

use vstd::prelude::*;

verus! {

pub struct RepeatTimer {
    pub period_ms: i64,
    pub elapsed_ms: i64,
}

impl RepeatTimer {
    /// A timer is well formed when its period is positive and the accumulated
    /// time has not yet reached a full period.
    pub open spec fn wf(self) -> bool {
        0 < self.period_ms && 0 <= self.elapsed_ms < self.period_ms
    }

    /// Whether adding `delta_ms` of frame time makes the timer fire.
    pub open spec fn spec_fires(self, delta_ms: int) -> bool {
        self.elapsed_ms + delta_ms >= self.period_ms
    }

    pub fn new(period_ms: i64) -> (t: RepeatTimer)
        requires
            period_ms > 0,
        ensures
            t.wf(),
            t.period_ms == period_ms,
            t.elapsed_ms == 0,
    {
        RepeatTimer { period_ms, elapsed_ms: 0 }
    }

    /// Advances the timer by `delta_ms` and reports whether it fired.
    pub fn tick(&mut self, delta_ms: i64) -> (fired: bool)
        requires
            old(self).wf(),
            0 <= delta_ms,
            old(self).elapsed_ms + delta_ms <= i64::MAX,
        ensures
            final(self).wf(),
            final(self).period_ms == old(self).period_ms,
            fired == old(self).spec_fires(delta_ms as int),
            final(self).elapsed_ms == (old(self).elapsed_ms + delta_ms) % (old(self).period_ms as int),
    {
        let total = self.elapsed_ms + delta_ms;
        if total >= self.period_ms {
            self.elapsed_ms = total % self.period_ms;
            true
        } else {
            proof {
                vstd::arithmetic::div_mod::lemma_small_mod(total as nat, self.period_ms as nat);
            }
            self.elapsed_ms = total;
            false
        }
    }
}

} // verus!
