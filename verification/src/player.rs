//! The player character: initial statistics, per-tick movement from held
//! keys, and the defeat check.

use vstd::prelude::*;
use crate::config::GameConfig;
use crate::dash::Dasher;
use crate::faction::PLAYER_BIT;
use crate::faction::UpgradesReceiverFaction;
use crate::health::Health;
use crate::physics_layers;
use crate::physics_layers::CollisionGroups;
use crate::timer::MAX_TIME_MS;
use crate::upgrades::UpgradesReceiver;
use crate::vec2::Vec2i;
use crate::wander::spec_step;
use crate::wander::MAX_SPEED;

verus! {

/// The player's own statistics.
#[derive(Debug, Clone, Copy, PartialEq, Eq, Structural)]
pub struct Player {
    /// Movement speed in units per second.
    pub speed: u64,
}

/// Everything the player entity is created with.
#[derive(Debug, Clone, Copy, PartialEq, Eq, Structural)]
pub struct PlayerBundle {
    pub player: Player,
    pub health: Health,
    pub receiver: UpgradesReceiver,
    pub dasher: Dasher,
    pub collision_groups: CollisionGroups,
}

/// Create the player: speed one hundred, twenty health (or a debug mountain
/// of it), the player faction tag, a fifty-unit dash at speed two hundred,
/// and membership in the players collision layer against everything.
pub fn setup_player(config: &GameConfig) -> (b: PlayerBundle)
    ensures
        b.player.speed == 100,
        b.health.health == (if config.infinite_hp { 100000int } else { 20int }),
        b.health.max_health == b.health.health,
        b.receiver.factions.bits == PLAYER_BIT,
        b.dasher == (Dasher { dash_amount: 50, dash_speed: 200 }),
        b.dasher.wf(),
        b.collision_groups == (CollisionGroups {
            memberships: physics_layers::PLAYERS,
            filters: physics_layers::ALL,
        }),
{
    PlayerBundle {
        player: Player { speed: 100 },
        health: Health::new(if config.infinite_hp { 100000 } else { 20 }),
        receiver: UpgradesReceiver { factions: UpgradesReceiverFaction::player() },
        dasher: Dasher { dash_amount: 50, dash_speed: 200 },
        collision_groups: CollisionGroups::new(physics_layers::PLAYERS, physics_layers::ALL),
    }
}

/// The translation this tick asks for: the held direction — one unit per
/// axis — scaled by speed over the tick time.
pub fn character_movement(player: &Player, direction: Vec2i, delta_ms: u64) -> (r: Vec2i)
    requires
        player.speed <= MAX_SPEED,
        delta_ms <= MAX_TIME_MS,
        -1 <= direction.x <= 1,
        -1 <= direction.y <= 1,
    ensures
        r.x == (if direction.x > 0 {
            spec_step(player.speed, delta_ms)
        } else if direction.x < 0 {
            -spec_step(player.speed, delta_ms)
        } else {
            0int
        }),
        r.y == (if direction.y > 0 {
            spec_step(player.speed, delta_ms)
        } else if direction.y < 0 {
            -spec_step(player.speed, delta_ms)
        } else {
            0int
        }),
{
    proof {
        vstd::arithmetic::mul::lemma_mul_upper_bound(
            player.speed as int,
            MAX_SPEED as int,
            delta_ms as int,
            MAX_TIME_MS as int,
        );
        vstd::arithmetic::div_mod::lemma_div_pos_is_pos(player.speed * delta_ms, 1000);
        vstd::arithmetic::div_mod::lemma_div_is_ordered(
            player.speed * delta_ms,
            MAX_SPEED as int * MAX_TIME_MS as int,
            1000,
        );
    }
    let amount: u64 = player.speed * delta_ms / 1000;
    let signed = amount as i64;
    let x: i64 = if direction.x > 0 {
        signed
    } else if direction.x < 0 {
        -signed
    } else {
        0
    };
    let y: i64 = if direction.y > 0 {
        signed
    } else if direction.y < 0 {
        -signed
    } else {
        0
    };
    Vec2i { x, y }
}

/// Whether the player has lost: health at or below zero. Observed every
/// combat tick; the state machine turns it into defeat.
pub fn player_death(health: &Health) -> (dead: bool)
    ensures
        dead == (health.health <= 0),
{
    health.health <= 0
}

} // verus!
