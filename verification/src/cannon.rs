//! Cannons: timer-driven producers of bullet hazards. A moving cannon
//! wanders between two endpoints while firing small fast bullets; a
//! stationary cannon fires big slow ones. Firing constructs a hazard
//! descriptor that the physics/rendering collaborator instantiates.

use vstd::prelude::*;
use crate::faction::UpgradesReceiverFaction;
use crate::vec2::Vec2i;
use crate::faction::ENEMY_BULLETS_BIT;
use crate::rng::rand_below;
use crate::timer::GameTimer;
use crate::timer::MAX_TIME_MS;
use crate::wander::Wander;
use crate::wander::WanderDirection;
use crate::wander::MAX_COORD;

verus! {

/// The kinds of bullet a cannon can produce.
#[derive(Debug, Clone, Copy, PartialEq, Eq, Structural)]
pub enum EnemyTypes {
    SmallBullet,
    BigBullet,
}

/// Damage, size and speed of one bullet kind.
#[derive(Debug, Clone, Copy, PartialEq, Eq, Structural)]
pub struct BulletProperties {
    pub damage: i64,
    pub size: i64,
    pub speed: i64,
}

/// The properties each bullet kind fires with.
pub open spec fn spec_bullet_for(t: EnemyTypes) -> BulletProperties {
    match t {
        EnemyTypes::SmallBullet => BulletProperties { damage: 5, size: 4, speed: 200 },
        EnemyTypes::BigBullet => BulletProperties { damage: 10, size: 16, speed: 50 },
    }
}

/// Everything the collaborator needs to instantiate one bullet: where, which
/// way, with what properties, and that it belongs to the enemy-bullets
/// faction so late upgrades reach it.
#[derive(Debug, Clone, Copy, PartialEq, Eq, Structural)]
pub struct BulletDescriptor {
    pub position: Vec2i,
    pub direction: Vec2i,
    pub properties: BulletProperties,
    pub factions: UpgradesReceiverFaction,
}

/// Build the descriptor for one bullet at a position.
pub fn spawn_bullet_in_pos(
    position: Vec2i,
    direction: Vec2i,
    properties: BulletProperties,
) -> (b: BulletDescriptor)
    ensures
        b.position == position,
        b.direction == direction,
        b.properties == properties,
        b.factions.bits == ENEMY_BULLETS_BIT,
{
    BulletDescriptor {
        position,
        direction,
        properties,
        factions: UpgradesReceiverFaction::enemy_bullets(),
    }
}

/// A cannon: a repeating firing timer, a firing direction and a bullet kind.
#[derive(Debug, Clone, Copy, PartialEq, Eq, Structural)]
pub struct Cannon {
    pub shooting_timer: GameTimer,
    pub direction: Vec2i,
    pub spawned_enemy_type: EnemyTypes,
}

impl Cannon {
    pub open spec fn wf(self) -> bool {
        self.shooting_timer.wf() && self.shooting_timer.repeating
    }

    pub fn new(enemy_type: EnemyTypes, direction: Vec2i, duration_ms: u64) -> (r: Cannon)
        requires
            1 <= duration_ms <= MAX_TIME_MS,
        ensures
            r.shooting_timer == (GameTimer { duration_ms, elapsed_ms: 0, repeating: true }),
            r.direction == direction,
            r.spawned_enemy_type == enemy_type,
            r.wf(),
    {
        Cannon {
            shooting_timer: GameTimer::new(duration_ms, true),
            direction,
            spawned_enemy_type: enemy_type,
        }
    }
}

/// The bullet a cannon emits from a given position.
pub fn spawn_enemy(cannon: &Cannon, position: Vec2i, enemy_type: EnemyTypes) -> (b:
    BulletDescriptor)
    ensures
        b.position == position,
        b.direction == cannon.direction,
        b.properties == spec_bullet_for(enemy_type),
        b.factions.bits == ENEMY_BULLETS_BIT,
{
    let bullet = match enemy_type {
        EnemyTypes::SmallBullet => BulletProperties { damage: 5, size: 4, speed: 200 },
        EnemyTypes::BigBullet => BulletProperties { damage: 10, size: 16, speed: 50 },
    };
    spawn_bullet_in_pos(position, cannon.direction, bullet)
}

/// One tick of a cannon: advance the firing timer; on each boundary it
/// crosses, emit one bullet from the cannon's current position.
pub fn cannon_behaviour(cannon: &mut Cannon, position: Vec2i, delta_ms: u64) -> (fired:
    Option<BulletDescriptor>)
    requires
        old(cannon).wf(),
        delta_ms <= MAX_TIME_MS,
    ensures
        final(cannon).wf(),
        final(cannon).direction == old(cannon).direction,
        final(cannon).spawned_enemy_type == old(cannon).spawned_enemy_type,
        final(cannon).shooting_timer == old(cannon).shooting_timer.spec_after_tick(delta_ms),
        match fired {
            Some(b) => {
                &&& old(cannon).shooting_timer.spec_just_finished(delta_ms)
                &&& b.position == position
                &&& b.direction == old(cannon).direction
                &&& b.properties == spec_bullet_for(old(cannon).spawned_enemy_type)
                &&& b.factions.bits == ENEMY_BULLETS_BIT
            },
            None => !old(cannon).shooting_timer.spec_just_finished(delta_ms),
        },
{
    let just_finished = cannon.shooting_timer.tick(delta_ms);
    if just_finished {
        let enemy_type = cannon.spawned_enemy_type;
        Some(spawn_enemy(cannon, position, enemy_type))
    } else {
        None
    }
}

/// Where a cannon is placed: where its wander starts and ends, and which
/// way it shoots.
#[derive(Debug, Clone, Copy, PartialEq, Eq, Structural)]
pub struct CannonSpawnProperties {
    pub start: Vec2i,
    pub end: Vec2i,
    pub shooting_direction: Vec2i,
}

impl CannonSpawnProperties {
    /// Wandering is along one axis: the endpoints differ in at most one
    /// coordinate, and stay inside the wander bounds.
    pub open spec fn wf(self) -> bool {
        &&& (self.start.x == self.end.x || self.start.y == self.end.y)
        &&& -MAX_COORD <= self.start.x <= MAX_COORD
        &&& -MAX_COORD <= self.start.y <= MAX_COORD
        &&& -MAX_COORD <= self.end.x <= MAX_COORD
        &&& -MAX_COORD <= self.end.y <= MAX_COORD
    }
}

/// A moving cannon as spawned: the cannon itself, its wander along the
/// varying axis, and the fixed coordinate of the other axis.
#[derive(Debug, Clone, Copy, PartialEq, Eq, Structural)]
pub struct MovingCannon {
    pub cannon: Cannon,
    pub wander: Wander,
    /// The coordinate of the axis the cannon does not move along.
    pub fixed_coordinate: i64,
    /// True when the wander runs along the vertical axis.
    pub wanders_vertically: bool,
}

/// Instantiate a moving cannon: small fast bullets once a second, wandering
/// from start to end at fifty units per second.
pub fn spawn_cannon(spawn_properties: CannonSpawnProperties) -> (r: MovingCannon)
    requires
        spawn_properties.wf(),
    ensures
        r.cannon.shooting_timer == (GameTimer {
            duration_ms: 1000,
            elapsed_ms: 0,
            repeating: true,
        }),
        r.cannon.direction == spawn_properties.shooting_direction,
        r.cannon.spawned_enemy_type == EnemyTypes::SmallBullet,
        r.cannon.wf(),
        r.wander.speed == 50,
        r.wander.direction == WanderDirection::ToEnd,
        r.wander.wf(),
        r.wanders_vertically == (spawn_properties.start.x == spawn_properties.end.x),
        r.wanders_vertically ==> {
            &&& r.wander.start == spawn_properties.start.y
            &&& r.wander.end == spawn_properties.end.y
            &&& r.fixed_coordinate == spawn_properties.start.x
        },
        !r.wanders_vertically ==> {
            &&& r.wander.start == spawn_properties.start.x
            &&& r.wander.end == spawn_properties.end.x
            &&& r.fixed_coordinate == spawn_properties.start.y
        },
{
    let cannon = Cannon::new(EnemyTypes::SmallBullet, spawn_properties.shooting_direction, 1000);
    if spawn_properties.start.x == spawn_properties.end.x {
        MovingCannon {
            cannon,
            wander: Wander {
                start: spawn_properties.start.y,
                end: spawn_properties.end.y,
                speed: 50,
                direction: WanderDirection::ToEnd,
            },
            fixed_coordinate: spawn_properties.start.x,
            wanders_vertically: true,
        }
    } else {
        MovingCannon {
            cannon,
            wander: Wander {
                start: spawn_properties.start.x,
                end: spawn_properties.end.x,
                speed: 50,
                direction: WanderDirection::ToEnd,
            },
            fixed_coordinate: spawn_properties.start.y,
            wanders_vertically: false,
        }
    }
}

/// Instantiate a stationary cannon at its start position: big slow bullets
/// every two seconds.
pub fn spawn_stationary_cannon(spawn_properties: CannonSpawnProperties) -> (r: Cannon)
    ensures
        r.shooting_timer == (GameTimer { duration_ms: 2000, elapsed_ms: 0, repeating: true }),
        r.direction == spawn_properties.shooting_direction,
        r.spawned_enemy_type == EnemyTypes::BigBullet,
        r.wf(),
{
    Cannon::new(EnemyTypes::BigBullet, spawn_properties.shooting_direction, 2000)
}

/// The two moving cannons present from the first level: one sweeping the
/// left wall shooting rightward, one sweeping the top shooting downward.
pub fn spawn_initial_cannons() -> (r: Vec<CannonSpawnProperties>)
    ensures
        r@.len() == 2,
        r@[0] == (CannonSpawnProperties {
            start: Vec2i { x: -100i64, y: -40i64 },
            end: Vec2i { x: -100i64, y: 40 },
            shooting_direction: Vec2i { x: 1, y: 0 },
        }),
        r@[1] == (CannonSpawnProperties {
            start: Vec2i { x: -40i64, y: 70 },
            end: Vec2i { x: 40, y: 70 },
            shooting_direction: Vec2i { x: 0, y: -1i64 },
        }),
        forall|i: int| 0 <= i < r@.len() ==> (#[trigger] r@[i]).wf(),
{
    let mut v: Vec<CannonSpawnProperties> = Vec::new();
    v.push(
        CannonSpawnProperties { start: Vec2i { x: -100i64, y: -40i64 }, end: Vec2i { x: -100i64, y: 40 }, shooting_direction: Vec2i { x: 1, y: 0 } },
    );
    v.push(
        CannonSpawnProperties { start: Vec2i { x: -40i64, y: 70 }, end: Vec2i { x: 40, y: 70 }, shooting_direction: Vec2i { x: 0, y: -1i64 } },
    );
    v
}

/// The end-of-level effect that adds a cannon sweeping the right wall,
/// shooting leftward.
pub fn spawn_cannon_on_the_right() -> (r: CannonSpawnProperties)
    ensures
        r == (CannonSpawnProperties {
            start: Vec2i { x: 100, y: -40i64 },
            end: Vec2i { x: 100, y: 40 },
            shooting_direction: Vec2i { x: -1i64, y: 0 },
        }),
        r.wf(),
{
    CannonSpawnProperties { start: Vec2i { x: 100, y: -40i64 }, end: Vec2i { x: 100, y: 40 }, shooting_direction: Vec2i { x: -1i64, y: 0 } }
}

/// The four corner placements a random stationary cannon may take, each
/// shooting diagonally inward.
pub open spec fn spec_corner_options() -> Seq<CannonSpawnProperties> {
    seq![
        CannonSpawnProperties {
            start: Vec2i { x: 100, y: 70 },
            end: Vec2i { x: 0, y: 0 },
            shooting_direction: Vec2i { x: -1i64, y: -1i64 },
        },
        CannonSpawnProperties {
            start: Vec2i { x: -100i64, y: 70 },
            end: Vec2i { x: 0, y: 0 },
            shooting_direction: Vec2i { x: 1, y: -1i64 },
        },
        CannonSpawnProperties {
            start: Vec2i { x: 100, y: -70i64 },
            end: Vec2i { x: 0, y: 0 },
            shooting_direction: Vec2i { x: -1i64, y: 1 },
        },
        CannonSpawnProperties {
            start: Vec2i { x: -100i64, y: -70i64 },
            end: Vec2i { x: 0, y: 0 },
            shooting_direction: Vec2i { x: 1, y: 1 },
        },
    ]
}

/// The end-of-level effect that adds a stationary cannon in one of the four
/// corners, chosen at random; every outcome is one of the four placements.
pub fn spawn_random_stationary_cannon() -> (r: CannonSpawnProperties)
    ensures
        exists|i: int| 0 <= i < 4 && r == spec_corner_options()[i],
{
    let pick = rand_below(4);
    let r = if pick == 0 {
        CannonSpawnProperties { start: Vec2i { x: 100, y: 70 }, end: Vec2i { x: 0, y: 0 }, shooting_direction: Vec2i { x: -1i64, y: -1i64 } }
    } else if pick == 1 {
        CannonSpawnProperties { start: Vec2i { x: -100i64, y: 70 }, end: Vec2i { x: 0, y: 0 }, shooting_direction: Vec2i { x: 1, y: -1i64 } }
    } else if pick == 2 {
        CannonSpawnProperties { start: Vec2i { x: 100, y: -70i64 }, end: Vec2i { x: 0, y: 0 }, shooting_direction: Vec2i { x: -1i64, y: 1 } }
    } else {
        CannonSpawnProperties { start: Vec2i { x: -100i64, y: -70i64 }, end: Vec2i { x: 0, y: 0 }, shooting_direction: Vec2i { x: 1, y: 1 } }
    };
    proof {
        if pick == 0 {
            assert(r == spec_corner_options()[0]);
        } else if pick == 1 {
            assert(r == spec_corner_options()[1]);
        } else if pick == 2 {
            assert(r == spec_corner_options()[2]);
        } else {
            assert(r == spec_corner_options()[3]);
        }
    }
    r
}

} // verus!
