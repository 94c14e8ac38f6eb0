//! Dashing: a short burst of fixed-speed movement during which the player
//! is invulnerable and passes through bullets. Starting a dash computes its
//! duration from distance over speed, grants an invulnerability window of
//! exactly that duration, and masks bullets out of the collision filters;
//! when the dash timer runs out the original filters come back.

use vstd::prelude::*;
use crate::health::Invulnerability;
use crate::physics_layers;
use crate::physics_layers::CollisionGroups;
use crate::timer::GameTimer;
use crate::timer::MAX_TIME_MS;
use crate::vec2::Vec2i;

verus! {

/// How far and how fast an entity can dash.
#[derive(Debug, Clone, Copy, PartialEq, Eq, Structural)]
pub struct Dasher {
    pub dash_amount: u64,
    pub dash_speed: u64,
}

impl Dasher {
    /// Speed is positive and the dash lasts at least a millisecond but
    /// stays bounded.
    pub open spec fn wf(self) -> bool {
        &&& 1 <= self.dash_speed
        &&& self.dash_speed <= self.dash_amount * 1000
        &&& self.dash_amount * 1000 / (self.dash_speed as int) <= MAX_TIME_MS
        &&& self.dash_amount * 1000 <= u64::MAX
        &&& self.dash_speed <= i64::MAX
    }

    /// How long the dash runs: distance over speed, in milliseconds.
    pub open spec fn spec_duration_ms(self) -> int {
        self.dash_amount * 1000 / (self.dash_speed as int)
    }
}

/// A dash in progress: its countdown, its velocity, and the collision
/// filters to restore when it ends.
#[derive(Debug, Clone, Copy, PartialEq, Eq, Structural)]
pub struct ActiveDash {
    pub timer: GameTimer,
    pub linear_velocity: Vec2i,
    pub original_collision_groups: CollisionGroups,
}

impl ActiveDash {
    pub open spec fn wf(self) -> bool {
        self.timer.wf() && !self.timer.repeating
    }

    pub fn new(
        dash_duration_ms: u64,
        linear_velocity: Vec2i,
        original_collision_groups: CollisionGroups,
    ) -> (r: ActiveDash)
        requires
            1 <= dash_duration_ms <= MAX_TIME_MS,
        ensures
            r.timer == (GameTimer {
                duration_ms: dash_duration_ms,
                elapsed_ms: 0,
                repeating: false,
            }),
            r.linear_velocity == linear_velocity,
            r.original_collision_groups == original_collision_groups,
            r.wf(),
    {
        ActiveDash {
            timer: GameTimer::new(dash_duration_ms, false),
            linear_velocity,
            original_collision_groups,
        }
    }
}

/// Everything a started dash attaches to the entity.
#[derive(Debug, Clone, Copy, PartialEq, Eq, Structural)]
pub struct DashStart {
    pub active: ActiveDash,
    pub invulnerability: Invulnerability,
    pub dash_collision_groups: CollisionGroups,
}

/// Begin a dash in the held direction. A zero direction starts nothing.
/// Otherwise: the dash runs for distance over speed; the entity is
/// invulnerable for exactly that long; and bullets are masked out of its
/// collision filters until the dash ends.
pub fn start_dashing(
    direction: Vec2i,
    dasher: &Dasher,
    original_collision_groups: &CollisionGroups,
) -> (r: Option<DashStart>)
    requires
        dasher.wf(),
        -1 <= direction.x <= 1,
        -1 <= direction.y <= 1,
    ensures
        match r {
            Some(d) => {
                &&& !(direction.x == 0 && direction.y == 0)
                &&& d.active.timer == (GameTimer {
                    duration_ms: dasher.spec_duration_ms() as u64,
                    elapsed_ms: 0,
                    repeating: false,
                })
                &&& d.active.linear_velocity.x == (if direction.x > 0 {
                    dasher.dash_speed as int
                } else if direction.x < 0 {
                    -(dasher.dash_speed as int)
                } else {
                    0int
                })
                &&& d.active.linear_velocity.y == (if direction.y > 0 {
                    dasher.dash_speed as int
                } else if direction.y < 0 {
                    -(dasher.dash_speed as int)
                } else {
                    0int
                })
                &&& d.active.original_collision_groups == *original_collision_groups
                &&& d.invulnerability.timer == (GameTimer {
                    duration_ms: dasher.spec_duration_ms() as u64,
                    elapsed_ms: 0,
                    repeating: false,
                })
                &&& d.dash_collision_groups.memberships
                    == original_collision_groups.memberships
                &&& d.dash_collision_groups.filters == original_collision_groups.filters
                    & !physics_layers::BULLETS
            },
            None => direction.x == 0 && direction.y == 0,
        },
{
    if direction.is_zero() {
        return None;
    }
    proof {
        vstd::arithmetic::div_mod::lemma_div_pos_is_pos(
            dasher.dash_amount * 1000,
            dasher.dash_speed as int,
        );
        vstd::arithmetic::div_mod::lemma_div_non_zero(
            dasher.dash_amount * 1000,
            dasher.dash_speed as int,
        );
    }
    let dash_duration_ms: u64 = dasher.dash_amount * 1000 / dasher.dash_speed;
    let speed = dasher.dash_speed as i64;
    let vx: i64 = if direction.x > 0 {
        speed
    } else if direction.x < 0 {
        -speed
    } else {
        0
    };
    let vy: i64 = if direction.y > 0 {
        speed
    } else if direction.y < 0 {
        -speed
    } else {
        0
    };
    let velocity = Vec2i { x: vx, y: vy };
    Some(
        DashStart {
            active: ActiveDash::new(
                dash_duration_ms,
                velocity,
                *original_collision_groups,
            ),
            invulnerability: Invulnerability::new(dash_duration_ms),
            dash_collision_groups: CollisionGroups {
                memberships: original_collision_groups.memberships,
                filters: original_collision_groups.filters & !physics_layers::BULLETS,
            },
        },
    )
}

/// One tick of an active dash: the movement this tick, and — exactly on the
/// tick where the countdown runs out — the original collision filters to
/// restore as the dash components come off.
pub fn handle_active_dash(dash: &mut ActiveDash, delta_ms: u64) -> (finished: Option<
    CollisionGroups,
>)
    requires
        old(dash).wf(),
        delta_ms <= MAX_TIME_MS,
    ensures
        final(dash).wf(),
        final(dash).linear_velocity == old(dash).linear_velocity,
        final(dash).original_collision_groups == old(dash).original_collision_groups,
        final(dash).timer == old(dash).timer.spec_after_tick(delta_ms),
        match finished {
            Some(groups) => {
                &&& old(dash).timer.spec_just_finished(delta_ms)
                &&& groups == old(dash).original_collision_groups
            },
            None => !old(dash).timer.spec_just_finished(delta_ms),
        },
{
    let just_finished = dash.timer.tick(delta_ms);
    if just_finished {
        Some(dash.original_collision_groups)
    } else {
        None
    }
}

} // verus!
