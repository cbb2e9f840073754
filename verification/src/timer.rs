use vstd::prelude::*;

verus! {

/// A repeating timer over an abstract integer time unit. `tick`
/// accumulates elapsed time and reports how many whole periods completed
/// during the tick; what remains past the last completed period carries
/// over, so the cadence never drifts.
#[derive(Clone, Copy, PartialEq, Eq, Structural, Debug)]
pub struct RepeatTimer {
    /// Length of one period, at least one time unit.
    pub period: u64,
    /// Time accumulated since the last completed period.
    pub elapsed: u64,
}

impl RepeatTimer {
    /// A timer is well formed when its period is positive and its
    /// carried-over time is shorter than one period.
    pub open spec fn wf(self) -> bool {
        1 <= self.period && self.elapsed < self.period
    }

    /// A fresh repeating timer with the given period and nothing elapsed.
    pub fn new(period: u64) -> (t: RepeatTimer)
        requires
            1 <= period,
        ensures
            t.period == period,
            t.elapsed == 0,
            t.wf(),
    {
        RepeatTimer { period, elapsed: 0 }
    }

    /// Advance the timer by `delta` time units and return how many whole
    /// periods completed during this tick.
    pub fn tick(&mut self, delta: u64) -> (finished: u64)
        requires
            old(self).wf(),
            old(self).elapsed + delta <= u64::MAX,
        ensures
            final(self).wf(),
            final(self).period == old(self).period,
            finished == (old(self).elapsed + delta) / (old(self).period as int),
            final(self).elapsed == (old(self).elapsed + delta) % (old(self).period as int),
            finished >= 1 <==> old(self).elapsed + delta >= old(self).period,
    {
        let total: u64 = self.elapsed + delta;
        let finished: u64 = total / self.period;
        proof {
            if total >= self.period {
                vstd::arithmetic::div_mod::lemma_div_non_zero(total as int, self.period as int);
            } else {
                vstd::arithmetic::div_mod::lemma_basic_div(total as int, self.period as int);
            }
        }
        self.elapsed = total % self.period;
        finished
    }
}

} // verus!
