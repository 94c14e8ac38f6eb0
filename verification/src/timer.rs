//! Countdown timers measured in whole milliseconds of elapsed tick time.
//! A once timer finishes exactly once; a repeating timer wraps and reports
//! every boundary it crosses. `tick` is edge-triggered: it reports a finish
//! only on the tick where the boundary is crossed, never again afterwards.

use vstd::prelude::*;

verus! {

/// Upper bound on durations and per-tick deltas (about 49 days), so that
/// sums of two of them always fit in a `u64`.
pub const MAX_TIME_MS: u64 = 0x1_0000_0000;

/// A timer counting elapsed milliseconds toward a fixed duration.
#[derive(Debug, Clone, Copy, PartialEq, Eq, Structural)]
pub struct GameTimer {
    pub duration_ms: u64,
    pub elapsed_ms: u64,
    pub repeating: bool,
}

impl GameTimer {
    /// The duration is positive and bounded, and the progress never runs
    /// past the duration (a repeating timer always wraps below it).
    pub open spec fn wf(self) -> bool {
        &&& 1 <= self.duration_ms <= MAX_TIME_MS
        &&& self.elapsed_ms <= self.duration_ms
        &&& (self.repeating ==> self.elapsed_ms < self.duration_ms)
    }

    /// A once timer has finished when it has run its full duration.
    pub open spec fn spec_finished(self) -> bool {
        self.elapsed_ms >= self.duration_ms
    }

    pub fn new(duration_ms: u64, repeating: bool) -> (r: GameTimer)
        requires
            1 <= duration_ms <= MAX_TIME_MS,
        ensures
            r == (GameTimer { duration_ms, elapsed_ms: 0, repeating }),
            r.wf(),
    {
        GameTimer { duration_ms, elapsed_ms: 0, repeating }
    }

    /// A once timer running for a whole number of seconds.
    pub fn from_seconds(seconds: u64, repeating: bool) -> (r: GameTimer)
        requires
            1 <= seconds,
            seconds * 1000 <= MAX_TIME_MS,
        ensures
            r.duration_ms == seconds * 1000,
            r.elapsed_ms == 0,
            r.repeating == repeating,
            r.wf(),
    {
        GameTimer::new(seconds * 1000, repeating)
    }

    /// The timer as it stands after one tick of `delta_ms`. A once timer
    /// stops at its duration; a repeating timer wraps below it.
    pub open spec fn spec_after_tick(self, delta_ms: u64) -> GameTimer {
        let total = self.elapsed_ms + delta_ms;
        let elapsed = if self.repeating {
            total % (self.duration_ms as int)
        } else if total >= self.duration_ms {
            self.duration_ms as int
        } else {
            total
        };
        GameTimer { elapsed_ms: elapsed as u64, ..self }
    }

    /// Whether a tick of `delta_ms` crosses the duration boundary. For a
    /// once timer this is an edge: true at most once over its lifetime.
    pub open spec fn spec_just_finished(self, delta_ms: u64) -> bool {
        if self.repeating {
            self.elapsed_ms + delta_ms >= self.duration_ms
        } else {
            self.elapsed_ms < self.duration_ms
                && self.elapsed_ms + delta_ms >= self.duration_ms
        }
    }

    /// Advance the timer by `delta_ms` and report whether it finished during
    /// this very call. A once timer that had already finished reports false
    /// forever after; a repeating timer wraps and reports each crossing.
    pub fn tick(&mut self, delta_ms: u64) -> (just_finished: bool)
        requires
            old(self).wf(),
            delta_ms <= MAX_TIME_MS,
        ensures
            final(self).wf(),
            *final(self) == old(self).spec_after_tick(delta_ms),
            just_finished == old(self).spec_just_finished(delta_ms),
    {
        let total = self.elapsed_ms + delta_ms;
        if self.repeating {
            let just_finished = total >= self.duration_ms;
            self.elapsed_ms = total % self.duration_ms;
            just_finished
        } else {
            let just_finished = self.elapsed_ms < self.duration_ms && total >= self.duration_ms;
            self.elapsed_ms = if total >= self.duration_ms { self.duration_ms } else { total };
            just_finished
        }
    }

    pub fn finished(&self) -> (r: bool)
        ensures
            r == self.spec_finished(),
    {
        self.elapsed_ms >= self.duration_ms
    }

    /// Restart from the beginning, keeping duration and mode.
    pub fn reset(&mut self)
        ensures
            *final(self) == (GameTimer {
                elapsed_ms: 0,
                ..*old(self)
            }),
    {
        self.elapsed_ms = 0;
    }

    pub fn remaining_ms(&self) -> (r: u64)
        requires
            self.wf(),
        ensures
            r == self.duration_ms - self.elapsed_ms,
    {
        self.duration_ms - self.elapsed_ms
    }

    /// Progress through the duration in thousandths, for cosmetic fades.
    pub fn fraction_permille(&self) -> (r: u64)
        requires
            self.wf(),
        ensures
            r == self.elapsed_ms * 1000 / self.duration_ms as int,
            r <= 1000,
    {
        proof {
            vstd::arithmetic::div_mod::lemma_div_is_ordered(
                self.elapsed_ms * 1000,
                self.duration_ms * 1000,
                self.duration_ms as int,
            );
            vstd::arithmetic::div_mod::lemma_div_multiples_vanish(
                1000,
                self.duration_ms as int,
            );
        }
        (self.elapsed_ms * 1000) / self.duration_ms
    }
}

/// Once a once timer has finished, further ticks never report a finish
/// again: the expiry edge fires exactly once.
pub proof fn lemma_once_timer_fires_once(t: GameTimer, delta_ms: u64)
    requires
        t.wf(),
        !t.repeating,
        t.spec_finished(),
    ensures
        !t.spec_just_finished(delta_ms),
        t.spec_after_tick(delta_ms).spec_finished(),
{
}

} // verus!
