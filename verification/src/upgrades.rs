//! Upgrade broadcast registry: a pool of candidate upgrades, an append-only
//! log of the ones the player has chosen, and the reconciliation that routes
//! each logged upgrade to every entity whose faction mask overlaps the
//! upgrade's target mask — including entities spawned after the upgrade was
//! granted, which catch up in log order on spawn.

use vstd::prelude::*;
use crate::faction::ENEMY_BULLETS_BIT;
use crate::faction::PLAYER_BIT;
use crate::faction::UpgradesReceiverFaction;
use crate::faction::masks_overlap;
use crate::health::Health;
use crate::pool::SelectionsPool;

verus! {

/// A unit of deferred behaviour an upgrade applies to an entity, as a closed
/// set of effect kinds.
#[derive(Debug, Clone, Copy, PartialEq, Eq, Structural)]
pub enum UpgradeEffect {
    /// Raise current and maximum health together.
    AddHealth { amount: i64 },
    /// Multiply movement speed by eleven tenths.
    SpeedBoost,
    /// Cosmetic recolor of the receiving entity.
    RecolorBullets,
    /// A placeholder effect that does nothing yet.
    Unimplemented,
}

/// One upgrade: an identity standing for its registered effect handle, the
/// effect itself, and presentation metadata.
#[derive(Debug, Clone, Copy)]
pub struct Upgrade {
    pub id: u64,
    pub apply_upgrade: UpgradeEffect,
    pub name: &'static str,
    pub description: &'static str,
    pub icon_texture: &'static str,
}

/// An upgrade together with the factions it is meant for. Immutable once
/// created.
#[derive(Debug, Clone, Copy)]
pub struct GlobalUpgrade {
    pub upgrade: Upgrade,
    pub receiver_factions: UpgradesReceiverFaction,
}

/// A marker for an entity that can receive upgrades.
#[derive(Debug, Clone, Copy, PartialEq, Eq, Structural)]
pub struct UpgradesReceiver {
    pub factions: UpgradesReceiverFaction,
}

/// One faction-tagged entity, with the record of which upgrades' effects
/// have been invoked on it, in application order.
#[derive(Debug)]
pub struct ReceiverEntity {
    pub id: u64,
    pub receiver: UpgradesReceiver,
    pub received: Vec<u64>,
}

/// The mathematical image of one receiver entity.
pub ghost struct ReceiverModel {
    pub id: u64,
    pub factions: UpgradesReceiverFaction,
    pub received: Seq<u64>,
}

impl View for ReceiverEntity {
    type V = ReceiverModel;

    open spec fn view(&self) -> ReceiverModel {
        ReceiverModel {
            id: self.id,
            factions: self.receiver.factions,
            received: self.received@,
        }
    }
}

/// Whether an upgrade is meant for this receiver: their masks share a bit.
/// The all-zero mask therefore matches nothing, on either side.
pub fn should_apply_upgrade(receiver: &UpgradesReceiver, upgrade: &GlobalUpgrade) -> (r: bool)
    ensures
        r == masks_overlap(upgrade.receiver_factions.bits, receiver.factions.bits),
{
    !upgrade.receiver_factions.and(receiver.factions).is_none()
}

/// The append-only log of upgrades the player has chosen, ordered by
/// selection time; entries are never removed.
#[derive(Debug)]
pub struct AppliedGlobalUpgrades {
    pub applied_upgrades: Vec<GlobalUpgrade>,
}

impl AppliedGlobalUpgrades {
    pub fn new() -> (r: AppliedGlobalUpgrades)
        ensures
            r.applied_upgrades@ =~= Seq::<GlobalUpgrade>::empty(),
    {
        AppliedGlobalUpgrades { applied_upgrades: Vec::new() }
    }
}

/// One receiver after one upgrade is broadcast: its effect is recorded iff
/// the masks overlap; nothing else about the entity changes.
pub open spec fn spec_receive(m: ReceiverModel, u: GlobalUpgrade) -> ReceiverModel {
    if masks_overlap(u.receiver_factions.bits, m.factions.bits) {
        ReceiverModel { received: m.received.push(u.upgrade.id), ..m }
    } else {
        m
    }
}

/// One receiver after living through a whole sequence of broadcasts, oldest
/// first.
pub open spec fn spec_receive_all(m: ReceiverModel, log: Seq<GlobalUpgrade>) -> ReceiverModel
    decreases log.len(),
{
    if log.len() == 0 {
        m
    } else {
        spec_receive(spec_receive_all(m, log.drop_last()), log.last())
    }
}

/// The ids of the log entries whose target factions overlap `factions`, in
/// log order (oldest first); each entry contributes at most its own id, so
/// each fires exactly once.
pub open spec fn spec_upgrade_ids_for(
    log: Seq<GlobalUpgrade>,
    factions: UpgradesReceiverFaction,
) -> Seq<u64>
    decreases log.len(),
{
    if log.len() == 0 {
        Seq::empty()
    } else {
        spec_upgrade_ids_for(log.drop_last(), factions) + (
        if masks_overlap(log.last().receiver_factions.bits, factions.bits) {
            seq![log.last().upgrade.id]
        } else {
            Seq::empty()
        })
    }
}

/// Replay the whole applied log against one newly spawned entity, oldest
/// entry first, so a late joiner ends in the same state as one that had
/// existed since each upgrade was granted.
pub fn apply_upgrade_on_spawn(entity: &mut ReceiverEntity, applied: &AppliedGlobalUpgrades)
    ensures
        final(entity).id == old(entity).id,
        final(entity).receiver == old(entity).receiver,
        final(entity).received@ == old(entity).received@ + spec_upgrade_ids_for(
            applied.applied_upgrades@,
            old(entity).receiver.factions,
        ),
{
    let n = applied.applied_upgrades.len();
    let mut k: usize = 0;
    while k < n
        invariant
            k <= n,
            n == applied.applied_upgrades@.len(),
            entity.id == old(entity).id,
            entity.receiver == old(entity).receiver,
            entity.received@ == old(entity).received@ + spec_upgrade_ids_for(
                applied.applied_upgrades@.take(k as int),
                old(entity).receiver.factions,
            ),
        decreases n - k,
    {
        let upgrade = applied.applied_upgrades[k];
        if should_apply_upgrade(&entity.receiver, &upgrade) {
            entity.received.push(upgrade.upgrade.id);
        }
        proof {
            assert(applied.applied_upgrades@.take(k + 1).drop_last()
                == applied.applied_upgrades@.take(k as int));
            assert(applied.applied_upgrades@.take(k + 1).last()
                == applied.applied_upgrades@[k as int]);
        }
        k += 1;
    }
    proof {
        assert(applied.applied_upgrades@.take(n as int) =~= applied.applied_upgrades@);
    }
}

/// Broadcast one chosen upgrade: invoke its effect on every currently
/// existing receiver whose factions overlap, then append it to the log
/// unconditionally — even when no entity matched.
pub fn apply_upgrade_to_all(
    upgrade: GlobalUpgrade,
    entities: &mut Vec<ReceiverEntity>,
    applied: &mut AppliedGlobalUpgrades,
)
    ensures
        final(applied).applied_upgrades@ == old(applied).applied_upgrades@.push(upgrade),
        final(entities)@.len() == old(entities)@.len(),
        forall|j: int|
            0 <= j < old(entities)@.len() ==> (#[trigger] final(entities)@[j])@ == spec_receive(
                old(entities)@[j]@,
                upgrade,
            ),
{
    let n = entities.len();
    let mut k: usize = 0;
    while k < n
        invariant
            k <= n,
            n == entities@.len(),
            entities@.len() == old(entities)@.len(),
            forall|j: int|
                0 <= j < k ==> (#[trigger] entities@[j])@ == spec_receive(
                    old(entities)@[j]@,
                    upgrade,
                ),
            forall|j: int| k <= j < n ==> (#[trigger] entities@[j])@ == old(entities)@[j]@,
        decreases n - k,
    {
        let mut e = entities.remove(k);
        if should_apply_upgrade(&e.receiver, &upgrade) {
            e.received.push(upgrade.upgrade.id);
        }
        entities.insert(k, e);
        k += 1;
    }
    applied.applied_upgrades.push(upgrade);
}

/// Late-join replay is exact: an entity spawned after a log of broadcasts
/// carries, beyond what it already had, exactly the ids of the overlapping
/// log entries, in log order — the same record an entity alive through every
/// broadcast would carry. Each log entry contributes at most once.
pub proof fn lemma_late_join_matches_live(m: ReceiverModel, log: Seq<GlobalUpgrade>)
    ensures
        spec_receive_all(m, log).id == m.id,
        spec_receive_all(m, log).factions == m.factions,
        spec_receive_all(m, log).received == m.received + spec_upgrade_ids_for(log, m.factions),
    decreases log.len(),
{
    if log.len() == 0 {
        assert(m.received + spec_upgrade_ids_for(log, m.factions) =~= m.received);
    } else {
        lemma_late_join_matches_live(m, log.drop_last());
        assert(spec_receive_all(m, log).received =~= m.received + spec_upgrade_ids_for(
            log,
            m.factions,
        ));
    }
}

/// Fill the pool with the game's upgrade definitions: a health gain for the
/// player, a placeholder attack, a cosmetic recolor for enemy bullets, and a
/// speed boost for the player.
pub fn populate_upgrades_pool(pool: &mut SelectionsPool<GlobalUpgrade>)
    ensures
        final(pool)@.len() == old(pool)@.len() + 4,
        final(pool)@.take(old(pool)@.len() as int) == old(pool)@,
        final(pool)@[old(pool)@.len() as int].upgrade.id == 1,
        final(pool)@[old(pool)@.len() as int].upgrade.apply_upgrade == (
        UpgradeEffect::AddHealth { amount: 10 }),
        final(pool)@[old(pool)@.len() as int].receiver_factions.bits == PLAYER_BIT,
        final(pool)@[old(pool)@.len() + 1 as int].upgrade.id == 2,
        final(pool)@[old(pool)@.len() + 1 as int].upgrade.apply_upgrade == UpgradeEffect::Unimplemented,
        final(pool)@[old(pool)@.len() + 1 as int].receiver_factions.bits == PLAYER_BIT,
        final(pool)@[old(pool)@.len() + 2 as int].upgrade.id == 3,
        final(pool)@[old(pool)@.len() + 2 as int].upgrade.apply_upgrade == UpgradeEffect::RecolorBullets,
        final(pool)@[old(pool)@.len() + 2 as int].receiver_factions.bits == ENEMY_BULLETS_BIT,
        final(pool)@[old(pool)@.len() + 3 as int].upgrade.id == 4,
        final(pool)@[old(pool)@.len() + 3 as int].upgrade.apply_upgrade == UpgradeEffect::SpeedBoost,
        final(pool)@[old(pool)@.len() + 3 as int].receiver_factions.bits == PLAYER_BIT,
{
    pool.add_item(
        GlobalUpgrade {
            upgrade: Upgrade {
                id: 1,
                apply_upgrade: UpgradeEffect::AddHealth { amount: 10 },
                name: "Apple",
                description: "Gain 10 max HP and heal them",
                icon_texture: "sprites/upgrades/apple.png",
            },
            receiver_factions: UpgradesReceiverFaction::player(),
        },
    );
    pool.add_item(
        GlobalUpgrade {
            upgrade: Upgrade {
                id: 2,
                apply_upgrade: UpgradeEffect::Unimplemented,
                name: "Sword",
                description: "Get a cool attack",
                icon_texture: "sprites/upgrades/sword_diamond.png",
            },
            receiver_factions: UpgradesReceiverFaction::player(),
        },
    );
    pool.add_item(
        GlobalUpgrade {
            upgrade: Upgrade {
                id: 3,
                apply_upgrade: UpgradeEffect::RecolorBullets,
                name: "Yellow Boxes",
                description: "Test upgrade - make all enemy bullets yellow",
                icon_texture: "sprites/upgrades/yellow.png",
            },
            receiver_factions: UpgradesReceiverFaction::enemy_bullets(),
        },
    );
    pool.add_item(
        GlobalUpgrade {
            upgrade: Upgrade {
                id: 4,
                apply_upgrade: UpgradeEffect::SpeedBoost,
                name: "Cool Shoes",
                description: "Speed player up by x1.1",
                icon_texture: "sprites/upgrades/minecart.png",
            },
            receiver_factions: UpgradesReceiverFaction::player(),
        },
    );
    proof {
        assert(final(pool)@.take(old(pool)@.len() as int) =~= old(pool)@);
    }
}

/// Statistics of one entity that upgrade effects mutate.
#[derive(Debug, Clone, Copy, PartialEq, Eq, Structural)]
pub struct EntityStats {
    pub health: Health,
    pub speed: i64,
}

/// Movement speed raised by one tenth, rounding the magnitude down.
pub open spec fn spec_speed_boost(v: int) -> int {
    if v >= 0 {
        v * 11 / 10
    } else {
        -((-v) * 11 / 10)
    }
}

/// Clamp a mathematical value into the `i64` range.
pub open spec fn spec_clamp_i64(v: int) -> int {
    if v > i64::MAX {
        i64::MAX as int
    } else if v < i64::MIN {
        i64::MIN as int
    } else {
        v
    }
}

/// Invoke one effect against one entity's statistics. Health gains raise
/// current and maximum together and are not clamped to any gameplay bound
/// (only to the machine range); the speed boost multiplies by eleven tenths.
pub fn apply_effect(effect: &UpgradeEffect, stats: &mut EntityStats)
    ensures
        match effect {
            UpgradeEffect::AddHealth { amount } => {
                &&& final(stats).health.health == spec_clamp_i64(
                    old(stats).health.health + *amount,
                )
                &&& final(stats).health.max_health == spec_clamp_i64(
                    old(stats).health.max_health + *amount,
                )
                &&& final(stats).speed == old(stats).speed
            },
            UpgradeEffect::SpeedBoost => {
                &&& final(stats).speed == spec_clamp_i64(spec_speed_boost(old(stats).speed as int))
                &&& final(stats).health == old(stats).health
            },
            UpgradeEffect::RecolorBullets => *final(stats) == *old(stats),
            UpgradeEffect::Unimplemented => *final(stats) == *old(stats),
        },
{
    match effect {
        UpgradeEffect::AddHealth { amount } => {
            stats.health.health = sat_add_i64(stats.health.health, *amount);
            stats.health.max_health = sat_add_i64(stats.health.max_health, *amount);
        },
        UpgradeEffect::SpeedBoost => {
            proof {
                lemma_speed_boost_clamp(old(stats).speed as int);
            }
            let wide: i128 = if stats.speed >= 0 {
                (stats.speed as i128) * 11 / 10
            } else {
                -((-(stats.speed as i128)) * 11 / 10)
            };
            stats.speed = clamp_i128_to_i64(wide);
        },
        UpgradeEffect::RecolorBullets => {},
        UpgradeEffect::Unimplemented => {},
    }
}

/// Saturating addition on the `i64` range.
fn sat_add_i64(a: i64, b: i64) -> (r: i64)
    ensures
        r == spec_clamp_i64(a + b),
{
    if b >= 0 {
        if a <= i64::MAX - b {
            a + b
        } else {
            i64::MAX
        }
    } else {
        if a >= i64::MIN - b {
            a + b
        } else {
            i64::MIN
        }
    }
}

fn clamp_i128_to_i64(v: i128) -> (r: i64)
    ensures
        r == spec_clamp_i64(v as int),
{
    if v > i64::MAX as i128 {
        i64::MAX
    } else if v < i64::MIN as i128 {
        i64::MIN
    } else {
        v as i64
    }
}

/// The widened product stays inside `i128`, so the exec computation matches
/// the mathematical one.
proof fn lemma_speed_boost_clamp(speed: int)
    requires
        i64::MIN <= speed <= i64::MAX,
    ensures
        speed * 11 <= i128::MAX,
        (-speed) * 11 <= i128::MAX,
        (-speed) * 11 / 10 <= i128::MAX,
        speed >= 0 ==> 0 <= speed * 11 / 10 <= speed * 11,
        speed < 0 ==> 0 <= (-speed) * 11 / 10 <= (-speed) * 11,
{
    vstd::arithmetic::mul::lemma_mul_inequality(speed, i64::MAX as int, 11);
    vstd::arithmetic::mul::lemma_mul_inequality(-speed, i64::MAX as int + 1, 11);
    if speed >= 0 {
        vstd::arithmetic::mul::lemma_mul_nonnegative(speed, 11);
        vstd::arithmetic::div_mod::lemma_div_is_ordered_by_denominator(speed * 11, 1, 10);
        vstd::arithmetic::div_mod::lemma_div_pos_is_pos(speed * 11, 10);
    } else {
        vstd::arithmetic::mul::lemma_mul_nonnegative(-speed, 11);
        vstd::arithmetic::div_mod::lemma_div_is_ordered_by_denominator((-speed) * 11, 1, 10);
        vstd::arithmetic::div_mod::lemma_div_pos_is_pos((-speed) * 11, 10);
    }
}

} // verus!
