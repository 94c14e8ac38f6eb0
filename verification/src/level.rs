//! Level configuration and the level timer. While defending, the timer
//! counts down once; when it elapses the level is finished and the state
//! machine moves into the end-of-level animation.

use vstd::prelude::*;
use crate::state::next_state;
use crate::state::spec_next_state;
use crate::state::AppState;
use crate::state::GameSignal;
use crate::timer::GameTimer;
use crate::timer::MAX_TIME_MS;

verus! {

/// Marker event: the current level finished (timer elapsed, or the whole
/// animation sequence after it completed).
#[derive(Debug, Clone, Copy, PartialEq, Eq, Structural)]
pub struct LevelFinishedEvent;

/// Marker event: combat completed.
#[derive(Debug, Clone, Copy, PartialEq, Eq, Structural)]
pub struct CombatFinishedEvent;

/// Consume a combat-finished event: from combat the game moves into the
/// end-of-level animation; the signal is ignored elsewhere.
pub fn on_finished_combat(s: AppState) -> (r: AppState)
    ensures
        r == spec_next_state(s, GameSignal::CombatFinished),
{
    next_state(s, GameSignal::CombatFinished)
}

/// Static description of one level: how long it must be survived.
#[derive(Debug, Clone, Copy, PartialEq, Eq, Structural)]
pub struct LevelConfig {
    pub duration_ms: u64,
}

impl LevelConfig {
    pub fn from_seconds_duration(seconds: u64) -> (r: LevelConfig)
        requires
            1 <= seconds,
            seconds * 1000 <= MAX_TIME_MS,
        ensures
            r.duration_ms == seconds * 1000,
    {
        LevelConfig { duration_ms: seconds * 1000 }
    }
}

/// The configuration of the level being played right now.
#[derive(Debug, Clone, Copy, PartialEq, Eq, Structural)]
pub struct CurrentLevelConfig(pub LevelConfig);

/// The on-screen countdown for the current level.
#[derive(Debug, Clone, Copy, PartialEq, Eq, Structural)]
pub struct LevelTimer {
    pub remaining_time: GameTimer,
}

impl LevelTimer {
    pub open spec fn wf(self) -> bool {
        self.remaining_time.wf() && !self.remaining_time.repeating
    }

    pub fn new(duration_ms: u64) -> (r: LevelTimer)
        requires
            1 <= duration_ms <= MAX_TIME_MS,
        ensures
            r.remaining_time == (GameTimer {
                duration_ms,
                elapsed_ms: 0,
                repeating: false,
            }),
            r.wf(),
    {
        LevelTimer { remaining_time: GameTimer::new(duration_ms, false) }
    }

    /// One tick of the countdown; true exactly on the tick where the level
    /// duration elapses, the signal that finishes the level.
    pub fn timer_behaviour(&mut self, delta_ms: u64) -> (finished: bool)
        requires
            old(self).wf(),
            delta_ms <= MAX_TIME_MS,
        ensures
            final(self).wf(),
            final(self).remaining_time == old(self).remaining_time.spec_after_tick(delta_ms),
            finished == old(self).remaining_time.spec_just_finished(delta_ms),
    {
        self.remaining_time.tick(delta_ms)
    }

    /// Restart the countdown when combat begins again.
    pub fn reset_timer(&mut self)
        ensures
            final(self).remaining_time == (GameTimer {
                elapsed_ms: 0,
                ..old(self).remaining_time
            }),
    {
        self.remaining_time.reset();
    }

    /// Milliseconds left, for the on-screen text.
    pub fn remaining_ms(&self) -> (r: u64)
        requires
            self.wf(),
        ensures
            r == self.remaining_time.duration_ms - self.remaining_time.elapsed_ms,
    {
        self.remaining_time.remaining_ms()
    }
}

} // verus!
