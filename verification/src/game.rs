//! One cooperative tick of the core loop. Damage requests buffered during
//! the tick are drained exactly once, invulnerability windows and the level
//! timer advance, and the tick's terminal observations fold into the state
//! machine. Every combat system is gated on the defending state: in any
//! other state a tick changes nothing at all.

use vstd::prelude::*;
use crate::health::CombatEntity;
use crate::health::CombatWorld;
use crate::health::DamageOccurredEvent;
use crate::health::TryDamageEvent;
use crate::health::handle_damage;
use crate::health::handle_invulnerability;
use crate::health::spec_expired_ids;
use crate::health::spec_process_damage;
use crate::health::spec_tick_invulnerability;
use crate::level::LevelTimer;
use crate::player::player_death;
use crate::state::AppState;
use crate::state::combat_active;
use crate::state::resolve_defending;
use crate::state::spec_combat_active;
use crate::state::spec_resolve_defending;
use crate::timer::MAX_TIME_MS;

verus! {

/// Whether the entity carrying the player's id stands at or below zero
/// health.
pub open spec fn spec_player_defeated(s: Seq<CombatEntity>, player_id: u64) -> bool {
    exists|i: int| 0 <= i < s.len() && s[i].id == player_id && s[i].health.health <= 0
}

/// What one combat tick hands back for cosmetic reaction: the damage that
/// landed, and the invulnerability windows that expired.
#[derive(Debug)]
pub struct TickOutput {
    pub notifications: Vec<DamageOccurredEvent>,
    pub expired: Vec<u64>,
}

/// The core loop's state: the app state gating the systems, the entities
/// the damage pipeline works on, the level countdown and the per-tick
/// damage mailbox.
#[derive(Debug)]
pub struct Game {
    pub state: AppState,
    pub world: CombatWorld,
    pub level_timer: LevelTimer,
    pub player_id: u64,
    pub pending_damage: Vec<TryDamageEvent>,
}

impl Game {
    pub open spec fn wf(self) -> bool {
        self.world.wf() && self.level_timer.wf()
    }

    /// Enqueue one damage request; it will be evaluated on the next combat
    /// tick, in arrival order.
    pub fn request_damage(&mut self, target_entity: u64, damage: i64)
        ensures
            final(self).pending_damage@ == old(self).pending_damage@.push(
                TryDamageEvent { target_entity, damage },
            ),
            final(self).state == old(self).state,
            final(self).world.entities@ == old(self).world.entities@,
            final(self).level_timer == old(self).level_timer,
            final(self).player_id == old(self).player_id,
    {
        self.pending_damage.push(TryDamageEvent { target_entity, damage });
    }

    /// One tick. Outside the defending state nothing runs and nothing
    /// changes — combat systems are gated on it. While defending: the
    /// damage mailbox is drained once through the pipeline, invulnerability
    /// windows tick and expire, the level countdown advances, and defeat
    /// (which takes precedence) or level completion moves the state
    /// machine on.
    pub fn game_tick(&mut self, delta_ms: u64) -> (out: TickOutput)
        requires
            old(self).wf(),
            delta_ms <= MAX_TIME_MS,
        ensures
            final(self).wf(),
            final(self).player_id == old(self).player_id,
            !spec_combat_active(old(self).state) ==> {
                &&& final(self).state == old(self).state
                &&& final(self).world.entities@ == old(self).world.entities@
                &&& final(self).level_timer == old(self).level_timer
                &&& final(self).pending_damage@ == old(self).pending_damage@
                &&& out.notifications@ == Seq::<DamageOccurredEvent>::empty()
                &&& out.expired@ == Seq::<u64>::empty()
            },
            spec_combat_active(old(self).state) ==> {
                let after_damage = spec_process_damage(
                    old(self).world.entities@,
                    old(self).pending_damage@,
                ).0;
                let after_expiry = after_damage.map(
                    |i: int, e: CombatEntity| spec_tick_invulnerability(e, delta_ms),
                );
                &&& final(self).world.entities@ == after_expiry
                &&& out.notifications@ == spec_process_damage(
                    old(self).world.entities@,
                    old(self).pending_damage@,
                ).1
                &&& out.expired@ == spec_expired_ids(after_damage, delta_ms)
                &&& final(self).pending_damage@ == Seq::<TryDamageEvent>::empty()
                &&& final(self).level_timer.remaining_time == old(
                    self,
                ).level_timer.remaining_time.spec_after_tick(delta_ms)
                &&& final(self).state == spec_resolve_defending(
                    old(self).state,
                    spec_player_defeated(after_expiry, old(self).player_id),
                    old(self).level_timer.remaining_time.spec_just_finished(delta_ms),
                )
            },
    {
        if !combat_active(self.state) {
            return TickOutput { notifications: Vec::new(), expired: Vec::new() };
        }
        let mut drained: Vec<TryDamageEvent> = Vec::new();
        core::mem::swap(&mut drained, &mut self.pending_damage);
        let notifications = handle_damage(&mut self.world, &drained);
        let expired = handle_invulnerability(&mut self.world, delta_ms);
        let finished = self.level_timer.timer_behaviour(delta_ms);
        let defeated = match self.world.find_entity(self.player_id) {
            Some(i) => {
                let dead = player_death(&self.world.entities[i].health);
                proof {
                    if dead {
                        assert(spec_player_defeated(self.world.entities@, self.player_id));
                    } else {
                        assert forall|j: int|
                            0 <= j < self.world.entities@.len()
                                && self.world.entities@[j].id == self.player_id
                                implies self.world.entities@[j].health.health > 0 by {
                            if j < i as int {
                                assert(self.world.entities@[j].id != self.world.entities@[
                                    i as int
                                ].id);
                            } else if j > i as int {
                                assert(self.world.entities@[i as int].id
                                    != self.world.entities@[j].id);
                            }
                        }
                    }
                }
                dead
            },
            None => {
                proof {
                    assert(!spec_player_defeated(self.world.entities@, self.player_id));
                }
                false
            },
        };
        self.state = resolve_defending(self.state, defeated, finished);
        TickOutput { notifications, expired }
    }
}

} // verus!
