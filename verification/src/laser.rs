//! Lasers: a cannon charges a beam, the beam winds up, fires, and winds
//! down. Its collider is enabled only while it is firing — never while
//! charging or discharging — and its opacity fades with phase progress.

use vstd::prelude::*;
use crate::timer::GameTimer;
use crate::timer::MAX_TIME_MS;

verus! {

/// A laser's phase durations and its damage on contact.
#[derive(Debug, Clone, Copy, PartialEq, Eq, Structural)]
pub struct Laser {
    pub winding_up_ms: u64,
    pub active_ms: u64,
    pub winding_down_ms: u64,
    pub damage: i64,
}

impl Laser {
    pub open spec fn wf(self) -> bool {
        &&& 1 <= self.winding_up_ms <= MAX_TIME_MS
        &&& 1 <= self.active_ms <= MAX_TIME_MS
        &&& 1 <= self.winding_down_ms <= MAX_TIME_MS
    }
}

impl Default for Laser {
    /// One second of wind-up, two seconds of fire, a quarter second of
    /// wind-down, five damage on contact.
    fn default() -> (r: Laser)
        ensures
            r == (Laser { winding_up_ms: 1000, active_ms: 2000, winding_down_ms: 250, damage: 5 }),
            r.wf(),
    {
        Laser { winding_up_ms: 1000, active_ms: 2000, winding_down_ms: 250, damage: 5 }
    }
}

/// The three-phase lifecycle, each phase on its own once timer.
#[derive(Debug, Clone, Copy, PartialEq, Eq, Structural)]
pub enum LaserState {
    WindingUp(GameTimer),
    Active(GameTimer),
    WindingDown(GameTimer),
}

impl LaserState {
    pub open spec fn wf(self) -> bool {
        match self {
            LaserState::WindingUp(t) => t.wf() && !t.repeating,
            LaserState::Active(t) => t.wf() && !t.repeating,
            LaserState::WindingDown(t) => t.wf() && !t.repeating,
        }
    }

    /// The laser can hurt only while it is firing.
    pub open spec fn spec_collider_enabled(self) -> bool {
        self is Active
    }

    pub fn new(laser: &Laser) -> (r: LaserState)
        requires
            laser.wf(),
        ensures
            r == LaserState::WindingUp(
                GameTimer { duration_ms: laser.winding_up_ms, elapsed_ms: 0, repeating: false },
            ),
            r.wf(),
            !r.spec_collider_enabled(),
    {
        LaserState::make_winding_up(laser)
    }

    pub fn make_winding_up(laser: &Laser) -> (r: LaserState)
        requires
            laser.wf(),
        ensures
            r == LaserState::WindingUp(
                GameTimer { duration_ms: laser.winding_up_ms, elapsed_ms: 0, repeating: false },
            ),
            r.wf(),
    {
        LaserState::WindingUp(GameTimer::new(laser.winding_up_ms, false))
    }

    pub fn make_active(laser: &Laser) -> (r: LaserState)
        requires
            laser.wf(),
        ensures
            r == LaserState::Active(
                GameTimer { duration_ms: laser.active_ms, elapsed_ms: 0, repeating: false },
            ),
            r.wf(),
    {
        LaserState::Active(GameTimer::new(laser.active_ms, false))
    }

    pub fn make_winding_down(laser: &Laser) -> (r: LaserState)
        requires
            laser.wf(),
        ensures
            r == LaserState::WindingDown(
                GameTimer { duration_ms: laser.winding_down_ms, elapsed_ms: 0, repeating: false },
            ),
            r.wf(),
    {
        LaserState::WindingDown(GameTimer::new(laser.winding_down_ms, false))
    }
}

/// What the collaborator must do after one lifecycle tick.
#[derive(Debug, Clone, Copy, PartialEq, Eq, Structural)]
pub enum LaserAction {
    /// Keep going; only the fade may have changed.
    Continue,
    /// The wind-up finished: enable the collider.
    EnableCollider,
    /// Firing finished: disable the collider.
    DisableCollider,
    /// The wind-down finished: remove the beam.
    Despawn,
}

/// One lifecycle tick: advance the current phase's timer; on the tick where
/// it crosses its boundary, move to the next phase and report the collider
/// toggle (or the despawn at the end). The collider is enabled exactly when
/// the resulting phase is the firing one.
pub fn laser_lifecycle(laser: &Laser, state: &mut LaserState, delta_ms: u64) -> (action:
    LaserAction)
    requires
        laser.wf(),
        old(state).wf(),
        delta_ms <= MAX_TIME_MS,
    ensures
        final(state).wf(),
        match *old(state) {
            LaserState::WindingUp(t) => {
                if t.spec_just_finished(delta_ms) {
                    &&& action == LaserAction::EnableCollider
                    &&& *final(state) == LaserState::Active(
                        GameTimer {
                            duration_ms: laser.active_ms,
                            elapsed_ms: 0,
                            repeating: false,
                        },
                    )
                } else {
                    &&& action == LaserAction::Continue
                    &&& *final(state) == LaserState::WindingUp(t.spec_after_tick(delta_ms))
                }
            },
            LaserState::Active(t) => {
                if t.spec_just_finished(delta_ms) {
                    &&& action == LaserAction::DisableCollider
                    &&& *final(state) == LaserState::WindingDown(
                        GameTimer {
                            duration_ms: laser.winding_down_ms,
                            elapsed_ms: 0,
                            repeating: false,
                        },
                    )
                } else {
                    &&& action == LaserAction::Continue
                    &&& *final(state) == LaserState::Active(t.spec_after_tick(delta_ms))
                }
            },
            LaserState::WindingDown(t) => {
                &&& action == (if t.spec_just_finished(delta_ms) {
                    LaserAction::Despawn
                } else {
                    LaserAction::Continue
                })
                &&& *final(state) == LaserState::WindingDown(t.spec_after_tick(delta_ms))
            },
        },
        action == LaserAction::EnableCollider ==> final(state).spec_collider_enabled(),
        action == LaserAction::DisableCollider ==> !final(state).spec_collider_enabled(),
{
    match *state {
        LaserState::WindingUp(t) => {
            let mut timer = t;
            let just_finished = timer.tick(delta_ms);
            if just_finished {
                *state = LaserState::make_active(laser);
                LaserAction::EnableCollider
            } else {
                *state = LaserState::WindingUp(timer);
                LaserAction::Continue
            }
        },
        LaserState::Active(t) => {
            let mut timer = t;
            let just_finished = timer.tick(delta_ms);
            if just_finished {
                *state = LaserState::make_winding_down(laser);
                LaserAction::DisableCollider
            } else {
                *state = LaserState::Active(timer);
                LaserAction::Continue
            }
        },
        LaserState::WindingDown(t) => {
            let mut timer = t;
            let just_finished = timer.tick(delta_ms);
            *state = LaserState::WindingDown(timer);
            if just_finished {
                LaserAction::Despawn
            } else {
                LaserAction::Continue
            }
        },
    }
}

/// The beam's opacity in thousandths: fading in with wind-up progress, full
/// while firing, fading out with wind-down progress.
pub fn laser_alpha_permille(state: &LaserState) -> (r: u64)
    requires
        state.wf(),
    ensures
        match *state {
            LaserState::WindingUp(t) => r == t.elapsed_ms * 1000 / t.duration_ms as int,
            LaserState::Active(t) => r == 1000,
            LaserState::WindingDown(t) => r == 1000 - t.elapsed_ms * 1000
                / t.duration_ms as int,
        },
        r <= 1000,
{
    match state {
        LaserState::WindingUp(t) => t.fraction_permille(),
        LaserState::Active(_) => 1000,
        LaserState::WindingDown(t) => 1000 - t.fraction_permille(),
    }
}

/// A laser cannon fires its beam when its timer runs out.
#[derive(Debug, Clone, Copy, PartialEq, Eq, Structural)]
pub struct LaserCannon {
    pub shooting_timer: GameTimer,
}

impl LaserCannon {
    pub open spec fn wf(self) -> bool {
        self.shooting_timer.wf() && !self.shooting_timer.repeating
    }

    pub fn new(duration_ms: u64) -> (r: LaserCannon)
        requires
            1 <= duration_ms <= MAX_TIME_MS,
        ensures
            r.shooting_timer == (GameTimer { duration_ms, elapsed_ms: 0, repeating: false }),
            r.wf(),
    {
        LaserCannon { shooting_timer: GameTimer::new(duration_ms, false) }
    }
}

/// The laser cannon present from the start, at the top of the arena: its
/// beam timer runs out after one second, once.
pub fn spawn_initial_laser_cannons() -> (r: LaserCannon)
    ensures
        r.shooting_timer == (GameTimer { duration_ms: 1000, elapsed_ms: 0, repeating: false }),
        r.wf(),
{
    LaserCannon::new(1000)
}

/// A new beam as spawned under a cannon: default phase durations, winding
/// up, collider disabled.
pub fn spawn_laser() -> (r: (Laser, LaserState))
    ensures
        r.0 == (Laser { winding_up_ms: 1000, active_ms: 2000, winding_down_ms: 250, damage: 5 }),
        r.1 == LaserState::WindingUp(
            GameTimer { duration_ms: 1000, elapsed_ms: 0, repeating: false },
        ),
        !r.1.spec_collider_enabled(),
        r.0.wf(),
        r.1.wf(),
{
    let laser = Laser::default();
    let state = LaserState::new(&laser);
    (laser, state)
}

/// One tick of a laser cannon: when its timer runs out, a beam is spawned.
pub fn laser_cannon_behavior(cannon: &mut LaserCannon, delta_ms: u64) -> (spawned: Option<
    (Laser, LaserState),
>)
    requires
        old(cannon).wf(),
        delta_ms <= MAX_TIME_MS,
    ensures
        final(cannon).wf(),
        final(cannon).shooting_timer == old(cannon).shooting_timer.spec_after_tick(delta_ms),
        match spawned {
            Some(pair) => {
                &&& old(cannon).shooting_timer.spec_just_finished(delta_ms)
                &&& pair.0 == (Laser {
                    winding_up_ms: 1000,
                    active_ms: 2000,
                    winding_down_ms: 250,
                    damage: 5,
                })
                &&& pair.1 == LaserState::WindingUp(
                    GameTimer { duration_ms: 1000, elapsed_ms: 0, repeating: false },
                )
            },
            None => !old(cannon).shooting_timer.spec_just_finished(delta_ms),
        },
{
    let just_finished = cannon.shooting_timer.tick(delta_ms);
    if just_finished {
        Some(spawn_laser())
    } else {
        None
    }
}

} // verus!
