//! Health ledger and the damage pipeline. Damage requests are buffered per
//! tick and drained in arrival order; a request that lands subtracts from the
//! target's health (never clamped at zero), attaches a fresh invulnerability
//! window and emits one notification. Requests against an invulnerable or
//! already-removed target are dropped silently.

use vstd::prelude::*;
use crate::timer::GameTimer;
use crate::timer::MAX_TIME_MS;

verus! {

/// How long a target stays invulnerable after damage lands.
pub const INVULNERABILITY_MS: u64 = 1000;

/// Saturating subtraction on the `i64` range; health values in play are tiny,
/// so the clamps are never reached in practice, but they keep the pipeline
/// total on every input.
pub open spec fn spec_sat_sub_i64(a: int, b: int) -> int {
    if a - b > i64::MAX {
        i64::MAX as int
    } else if a - b < i64::MIN {
        i64::MIN as int
    } else {
        a - b
    }
}

/// Saturating subtraction, proved against its mathematical statement.
pub fn sat_sub_i64(a: i64, b: i64) -> (r: i64)
    ensures
        r == spec_sat_sub_i64(a as int, b as int),
{
    if b >= 0 {
        if a >= i64::MIN + b {
            a - b
        } else {
            i64::MIN
        }
    } else {
        if a <= i64::MAX + b {
            a - b
        } else {
            i64::MAX
        }
    }
}

/// Current and maximum health of one entity. Neither value is clamped: health
/// may go negative on damage and may exceed the maximum on heal.
#[derive(Debug, Clone, Copy, PartialEq, Eq, Structural)]
pub struct Health {
    pub health: i64,
    pub max_health: i64,
}

impl Health {
    pub fn new(max_health: i64) -> (r: Health)
        ensures
            r.health == max_health,
            r.max_health == max_health,
    {
        Health { health: max_health, max_health }
    }
}

/// The green part of a healthbar: current health as thousandths of the
/// maximum. Health is not clamped, so the value may fall below zero or run
/// past one thousand; the display layer crops it.
pub fn healthbar_behaviour(health: &Health) -> (r: i64)
    requires
        1 <= health.max_health,
        -1_000_000_000 <= health.health <= 1_000_000_000,
        health.max_health <= 1_000_000_000,
    ensures
        health.health >= 0 ==> r == health.health * 1000 / (health.max_health as int),
        health.health < 0 ==> r == -((-health.health) * 1000 / (health.max_health as int)),
{
    proof {
        lemma_healthbar_bounds(health.health as int, health.max_health as int);
        lemma_healthbar_bounds(-(health.health as int), health.max_health as int);
    }
    if health.health >= 0 {
        health.health * 1000 / health.max_health
    } else {
        -((-health.health) * 1000 / health.max_health)
    }
}

proof fn lemma_healthbar_bounds(h: int, m: int)
    requires
        1 <= m <= 1_000_000_000,
        -1_000_000_000 <= h <= 1_000_000_000,
    ensures
        -1_000_000_000_000 <= h * 1000 <= 1_000_000_000_000,
        h * 1000 / m <= 1_000_000_000_000,
        h * 1000 / m >= -1_000_000_000_000,
{
    assert(-1_000_000_000_000 <= h * 1000 <= 1_000_000_000_000) by (nonlinear_arith)
        requires
            -1_000_000_000 <= h <= 1_000_000_000,
    ;
    assert(-1_000_000_000_000 <= h * 1000 / m <= 1_000_000_000_000) by (nonlinear_arith)
        requires
            1 <= m,
            -1_000_000_000_000 <= h * 1000 <= 1_000_000_000_000,
    ;
}

/// The debug cheat: ten thousand more health, current and maximum alike.
pub fn make_player_invincible(health: &mut Health)
    requires
        old(health).health <= i64::MAX - 10000,
        old(health).max_health <= i64::MAX - 10000,
    ensures
        final(health).health == old(health).health + 10000,
        final(health).max_health == old(health).max_health + 10000,
{
    health.max_health = health.max_health + 10000;
    health.health = health.health + 10000;
}

/// A time-boxed window during which all incoming damage is dropped.
#[derive(Debug, Clone, Copy, PartialEq, Eq, Structural)]
pub struct Invulnerability {
    pub timer: GameTimer,
}

impl Invulnerability {
    /// The window runs on a once timer.
    pub open spec fn wf(self) -> bool {
        self.timer.wf() && !self.timer.repeating
    }

    pub fn new(duration_ms: u64) -> (r: Invulnerability)
        requires
            1 <= duration_ms <= MAX_TIME_MS,
        ensures
            r == spec_fresh_invulnerability(duration_ms),
            r.wf(),
    {
        Invulnerability { timer: GameTimer::new(duration_ms, false) }
    }
}

/// The window the pipeline attaches right after damage lands.
pub open spec fn spec_fresh_invulnerability(duration_ms: u64) -> Invulnerability {
    Invulnerability {
        timer: GameTimer { duration_ms, elapsed_ms: 0, repeating: false },
    }
}

/// A request to damage one entity; transient, consumed once per tick.
#[derive(Debug, Clone, Copy, PartialEq, Eq, Structural)]
pub struct TryDamageEvent {
    pub target_entity: u64,
    pub damage: i64,
}

/// Emitted once per request that actually changed health; used only for
/// cosmetic reaction, never for further gameplay logic.
#[derive(Debug, Clone, Copy, PartialEq, Eq, Structural)]
pub struct DamageOccurredEvent {
    pub target_entity: u64,
    pub damage: i64,
}

/// One entity as the damage pipeline sees it.
#[derive(Debug, Clone, Copy, PartialEq, Eq, Structural)]
pub struct CombatEntity {
    pub id: u64,
    pub health: Health,
    pub invulnerability: Option<Invulnerability>,
}

impl CombatEntity {
    pub open spec fn wf(self) -> bool {
        match self.invulnerability {
            Some(inv) => inv.wf(),
            None => true,
        }
    }
}

/// No two live entities share an id.
pub open spec fn distinct_ids(s: Seq<CombatEntity>) -> bool {
    forall|i: int, j: int| 0 <= i < j < s.len() ==> s[i].id != s[j].id
}

/// Every entity in the sequence is well-formed.
pub open spec fn all_wf(s: Seq<CombatEntity>) -> bool {
    forall|i: int| 0 <= i < s.len() ==> (#[trigger] s[i]).wf()
}

/// The entities that survive removing the one with the given id.
pub open spec fn without_id(s: Seq<CombatEntity>, id: u64) -> Seq<CombatEntity> {
    s.filter(|e: CombatEntity| e.id != id)
}

/// Whether an entity with this id is still alive.
pub open spec fn has_entity(s: Seq<CombatEntity>, id: u64) -> bool {
    exists|i: int| 0 <= i < s.len() && s[i].id == id
}

/// Whether the entity with this id currently carries an invulnerability
/// window.
pub open spec fn entity_invulnerable(s: Seq<CombatEntity>, id: u64) -> bool {
    exists|i: int| 0 <= i < s.len() && s[i].id == id && s[i].invulnerability is Some
}

/// The entity after damage lands on it: health reduced, fresh window
/// attached (replacing any previous one: last write wins).
pub open spec fn spec_damaged(e: CombatEntity, damage: i64) -> CombatEntity {
    CombatEntity {
        health: Health {
            health: spec_sat_sub_i64(e.health.health as int, damage as int) as i64,
            ..e.health
        },
        invulnerability: Some(spec_fresh_invulnerability(INVULNERABILITY_MS)),
        ..e
    }
}

/// All entities after one request lands on the one with the given id.
pub open spec fn spec_apply_damage(s: Seq<CombatEntity>, id: u64, damage: i64) -> Seq<
    CombatEntity,
> {
    s.map(|i: int, e: CombatEntity| if e.id == id { spec_damaged(e, damage) } else { e })
}

/// One request against the current entities: either it lands (target alive
/// and not invulnerable) or it is dropped with no state change.
pub open spec fn spec_step_damage(s: Seq<CombatEntity>, ev: TryDamageEvent) -> (
    Seq<CombatEntity>,
    Option<DamageOccurredEvent>,
) {
    if has_entity(s, ev.target_entity) && !entity_invulnerable(s, ev.target_entity) {
        (
            spec_apply_damage(s, ev.target_entity, ev.damage),
            Some(DamageOccurredEvent { target_entity: ev.target_entity, damage: ev.damage }),
        )
    } else {
        (s, None)
    }
}

/// A whole tick's batch of requests, evaluated independently in arrival
/// order; the second component lists the notifications in the order the
/// requests landed.
pub open spec fn spec_process_damage(s: Seq<CombatEntity>, evs: Seq<TryDamageEvent>) -> (
    Seq<CombatEntity>,
    Seq<DamageOccurredEvent>,
)
    decreases evs.len(),
{
    if evs.len() == 0 {
        (s, Seq::empty())
    } else {
        let (s1, n1) = spec_step_damage(s, evs[0]);
        let (s2, rest) = spec_process_damage(s1, evs.drop_first());
        let head = match n1 {
            Some(n) => seq![n],
            None => Seq::empty(),
        };
        (s2, head + rest)
    }
}

/// Processing a batch extended by one more event first processes the batch,
/// then the new event against the resulting entities.
pub proof fn lemma_process_damage_push(
    s: Seq<CombatEntity>,
    evs: Seq<TryDamageEvent>,
    ev: TryDamageEvent,
)
    ensures
        spec_process_damage(s, evs.push(ev)).0 == spec_step_damage(
            spec_process_damage(s, evs).0,
            ev,
        ).0,
        spec_process_damage(s, evs.push(ev)).1 == spec_process_damage(s, evs).1 + (
        match spec_step_damage(spec_process_damage(s, evs).0, ev).1 {
            Some(n) => seq![n],
            None => Seq::<DamageOccurredEvent>::empty(),
        }),
    decreases evs.len(),
{
    reveal_with_fuel(spec_process_damage, 3);
    let all = evs.push(ev);
    if evs.len() == 0 {
        assert(all[0] == ev);
        assert(all.drop_first() =~= Seq::<TryDamageEvent>::empty());
        assert(spec_process_damage(s, evs).1 + (
        match spec_step_damage(spec_process_damage(s, evs).0, ev).1 {
            Some(n) => seq![n],
            None => Seq::<DamageOccurredEvent>::empty(),
        }) =~= spec_process_damage(s, all).1);
    } else {
        assert(all[0] == evs[0]);
        assert(all.drop_first() =~= evs.drop_first().push(ev));
        let (s1, n1) = spec_step_damage(s, evs[0]);
        lemma_process_damage_push(s1, evs.drop_first(), ev);
        assert(spec_process_damage(s, all).1 =~= spec_process_damage(s, evs).1 + (
        match spec_step_damage(spec_process_damage(s, evs).0, ev).1 {
            Some(n) => seq![n],
            None => Seq::<DamageOccurredEvent>::empty(),
        }));
    }
}

/// The set of entities the pipeline works on, owned by the game loop and
/// handed in by reference; ids are unique.
#[derive(Debug)]
pub struct CombatWorld {
    pub entities: Vec<CombatEntity>,
}

impl CombatWorld {
    pub open spec fn wf(self) -> bool {
        distinct_ids(self.entities@) && all_wf(self.entities@)
    }

    pub fn new() -> (r: CombatWorld)
        ensures
            r.entities@ =~= Seq::<CombatEntity>::empty(),
            r.wf(),
    {
        CombatWorld { entities: Vec::new() }
    }

    /// Add a fresh entity; its id must not already be taken.
    pub fn spawn(&mut self, e: CombatEntity)
        requires
            old(self).wf(),
            e.wf(),
            !has_entity(old(self).entities@, e.id),
        ensures
            final(self).wf(),
            final(self).entities@ == old(self).entities@.push(e),
    {
        self.entities.push(e);
    }

    /// Remove the entity with the given id, if it is alive.
    pub fn despawn(&mut self, id: u64)
        requires
            old(self).wf(),
        ensures
            final(self).wf(),
            final(self).entities@ == without_id(old(self).entities@, id),
            !has_entity(final(self).entities@, id),
    {
        let mut kept: Vec<CombatEntity> = Vec::new();
        let n = self.entities.len();
        let mut i: usize = 0;
        while i < n
            invariant
                i <= n,
                n == self.entities@.len(),
                old(self).wf(),
                self.entities@ == old(self).entities@,
                kept@ == old(self).entities@.take(i as int).filter(
                    |e: CombatEntity| e.id != id,
                ),
            decreases n - i,
        {
            proof {
                assert(old(self).entities@.take(i + 1).drop_last() == old(
                    self,
                ).entities@.take(i as int));
                reveal_with_fuel(Seq::filter, 2);
                assert(old(self).entities@.take(i + 1).last() == old(self).entities@[i as int]);
            }
            let e = self.entities[i];
            if e.id != id {
                kept.push(e);
            }
            i += 1;
        }
        proof {
            assert(old(self).entities@.take(n as int) =~= old(self).entities@);
        }
        self.entities = kept;
        proof {
            lemma_filter_keeps_distinct_and_wf(old(self).entities@, id);
        }
    }

    /// Find the position of a live entity by id.
    pub fn find_entity(&self, id: u64) -> (r: Option<usize>)
        ensures
            match r {
                Some(i) => i < self.entities@.len() && self.entities@[i as int].id == id,
                None => !has_entity(self.entities@, id),
            },
    {
        let n = self.entities.len();
        let mut i: usize = 0;
        while i < n
            invariant
                i <= n,
                n == self.entities@.len(),
                forall|j: int| 0 <= j < i ==> (#[trigger] self.entities@[j]).id != id,
            decreases n - i,
        {
            if self.entities[i].id == id {
                return Some(i);
            }
            i += 1;
        }
        None
    }
}

/// Filtering entities out keeps ids distinct and entities well-formed,
/// and every survivor was already present.
proof fn lemma_filter_keeps_distinct_and_wf(s: Seq<CombatEntity>, id: u64)
    requires
        distinct_ids(s),
        all_wf(s),
    ensures
        distinct_ids(without_id(s, id)),
        all_wf(without_id(s, id)),
        !has_entity(without_id(s, id), id),
        forall|i: int|
            0 <= i < without_id(s, id).len() ==> s.contains(#[trigger] without_id(s, id)[i]),
    decreases s.len(),
{
    reveal_with_fuel(Seq::filter, 2);
    let pred = |e: CombatEntity| e.id != id;
    let f = without_id(s, id);
    if s.len() > 0 {
        let rest = s.drop_last();
        lemma_filter_keeps_distinct_and_wf(rest, id);
        let frest = without_id(rest, id);
        assert forall|i: int| 0 <= i < frest.len() implies s.contains(frest[i]) by {
            assert(rest.contains(frest[i]));
            let k = choose|k: int| 0 <= k < rest.len() && rest[k] == frest[i];
            assert(s[k] == frest[i]);
        }
        if pred(s.last()) {
            assert(f == frest.push(s.last()));
            assert(s.contains(s.last())) by {
                assert(s[s.len() - 1] == s.last());
            }
            assert forall|i: int, j: int| 0 <= i < j < f.len() implies f[i].id != f[j].id by {
                if j == f.len() - 1 {
                    assert(rest.contains(frest[i]));
                    let k = choose|k: int| 0 <= k < rest.len() && rest[k] == frest[i];
                    assert(s[k].id != s[s.len() - 1].id);
                }
            }
            assert forall|i: int| 0 <= i < f.len() implies (#[trigger] f[i]).wf() by {
                if i == f.len() - 1 {
                    assert(s[s.len() - 1].wf());
                }
            }
            assert(!has_entity(f, id)) by {
                assert forall|i: int| 0 <= i < f.len() implies f[i].id != id by {
                    if i < f.len() - 1 {
                        assert(frest[i].id != id) by {
                            assert(!has_entity(frest, id));
                        }
                    }
                }
            }
        } else {
            assert(f == frest);
        }
    }
}

/// Drain one tick's damage requests against the world, in arrival order.
/// Returns the notifications for the requests that landed. A request whose
/// target is gone — despawned earlier in the same tick — is skipped, never
/// an error.
pub fn handle_damage(world: &mut CombatWorld, events: &Vec<TryDamageEvent>) -> (out: Vec<
    DamageOccurredEvent,
>)
    requires
        old(world).wf(),
    ensures
        final(world).wf(),
        final(world).entities@ == spec_process_damage(old(world).entities@, events@).0,
        out@ == spec_process_damage(old(world).entities@, events@).1,
{
    let mut out: Vec<DamageOccurredEvent> = Vec::new();
    let n = events.len();
    let mut k: usize = 0;
    while k < n
        invariant
            k <= n,
            n == events@.len(),
            old(world).wf(),
            world.wf(),
            world.entities@ == spec_process_damage(old(world).entities@, events@.take(k as int)).0,
            out@ == spec_process_damage(old(world).entities@, events@.take(k as int)).1,
        decreases n - k,
    {
        let ghost pre = world.entities@;
        let ev = events[k];
        match world.find_entity(ev.target_entity) {
            Some(i) => {
                let e = world.entities[i];
                proof {
                    lemma_found_entity_settles_specs(pre, ev.target_entity, i as int);
                }
                if e.invulnerability.is_none() {
                    let damaged = CombatEntity {
                        health: Health {
                            health: sat_sub_i64(e.health.health, ev.damage),
                            ..e.health
                        },
                        invulnerability: Some(Invulnerability::new(INVULNERABILITY_MS)),
                        ..e
                    };
                    world.entities[i] = damaged;
                    out.push(
                        DamageOccurredEvent {
                            target_entity: ev.target_entity,
                            damage: ev.damage,
                        },
                    );
                    proof {
                        assert forall|j: int|
                            0 <= j < pre.len() && j != i implies (#[trigger] pre[j]).id
                                != ev.target_entity by {
                            if j < i {
                                assert(pre[j].id != pre[i as int].id);
                            } else {
                                assert(pre[i as int].id != pre[j].id);
                            }
                        }
                        assert(world.entities@ =~= spec_apply_damage(
                            pre,
                            ev.target_entity,
                            ev.damage,
                        ));
                        assert(distinct_ids(world.entities@));
                        assert forall|j: int|
                            0 <= j < world.entities@.len() implies (
                        #[trigger] world.entities@[j]).wf() by {
                            assert(pre[j].wf());
                        }
                    }
                }
            },
            None => {},
        }
        proof {
            lemma_process_damage_push(old(world).entities@, events@.take(k as int), ev);
            assert(events@.take(k + 1).drop_last() == events@.take(k as int));
            assert(events@.take(k + 1) == events@.take(k as int).push(ev));
        }
        k += 1;
    }
    proof {
        assert(events@.take(n as int) =~= events@);
    }
    out
}


/// One entity after its invulnerability window ticks. When the window's
/// timer crosses its boundary the window is removed — exactly once, on that
/// very tick.
pub open spec fn spec_tick_invulnerability(e: CombatEntity, delta_ms: u64) -> CombatEntity {
    match e.invulnerability {
        None => e,
        Some(inv) => if inv.timer.spec_just_finished(delta_ms) {
            CombatEntity { invulnerability: None, ..e }
        } else {
            CombatEntity {
                invulnerability: Some(
                    Invulnerability { timer: inv.timer.spec_after_tick(delta_ms) },
                ),
                ..e
            }
        },
    }
}

/// Whether this tick removes the entity's invulnerability window.
pub open spec fn spec_invulnerability_expires(e: CombatEntity, delta_ms: u64) -> bool {
    match e.invulnerability {
        None => false,
        Some(inv) => inv.timer.spec_just_finished(delta_ms),
    }
}

/// The ids whose windows expire this tick, in entity order; collaborators
/// restore full opacity for exactly these.
pub open spec fn spec_expired_ids(s: Seq<CombatEntity>, delta_ms: u64) -> Seq<u64>
    decreases s.len(),
{
    if s.len() == 0 {
        Seq::empty()
    } else {
        spec_expired_ids(s.drop_last(), delta_ms) + (
        if spec_invulnerability_expires(s.last(), delta_ms) {
            seq![s.last().id]
        } else {
            Seq::empty()
        })
    }
}

/// Tick every invulnerability window by `delta_ms`, removing the ones that
/// finish. Returns the ids whose windows expired, each reported exactly on
/// the tick of expiry and never again.
pub fn handle_invulnerability(world: &mut CombatWorld, delta_ms: u64) -> (expired: Vec<u64>)
    requires
        old(world).wf(),
        delta_ms <= MAX_TIME_MS,
    ensures
        final(world).wf(),
        final(world).entities@ == old(world).entities@.map(
            |i: int, e: CombatEntity| spec_tick_invulnerability(e, delta_ms),
        ),
        expired@ == spec_expired_ids(old(world).entities@, delta_ms),
{
    let mut expired: Vec<u64> = Vec::new();
    let n = world.entities.len();
    let mut i: usize = 0;
    while i < n
        invariant
            i <= n,
            n == world.entities@.len(),
            old(world).wf(),
            delta_ms <= MAX_TIME_MS,
            world.entities@.len() == old(world).entities@.len(),
            forall|j: int|
                0 <= j < i ==> world.entities@[j] == spec_tick_invulnerability(
                    #[trigger] old(world).entities@[j],
                    delta_ms,
                ),
            forall|j: int| i <= j < n ==> world.entities@[j] == old(world).entities@[j],
            expired@ == spec_expired_ids(old(world).entities@.take(i as int), delta_ms),
        decreases n - i,
    {
        let e = world.entities[i];
        match e.invulnerability {
            Some(inv) => {
                proof {
                    assert(old(world).entities@[i as int].wf());
                }
                let mut timer = inv.timer;
                let just_finished = timer.tick(delta_ms);
                if just_finished {
                    world.entities[i] = CombatEntity { invulnerability: None, ..e };
                    expired.push(e.id);
                } else {
                    world.entities[i] = CombatEntity {
                        invulnerability: Some(Invulnerability { timer }),
                        ..e
                    };
                }
            },
            None => {},
        }
        proof {
            assert(old(world).entities@.take(i + 1).drop_last() == old(world).entities@.take(
                i as int,
            ));
            assert(old(world).entities@.take(i + 1).last() == old(world).entities@[i as int]);
        }
        i += 1;
    }
    proof {
        assert(old(world).entities@.take(n as int) =~= old(world).entities@);
        assert(world.entities@ =~= old(world).entities@.map(
            |j: int, e: CombatEntity| spec_tick_invulnerability(e, delta_ms),
        ));
        assert forall|j: int|
            0 <= j < world.entities@.len() implies (#[trigger] world.entities@[j]).wf() by {
            assert(old(world).entities@[j].wf());
        }
        assert(distinct_ids(world.entities@)) by {
            assert forall|a: int, b: int|
                0 <= a < b < world.entities@.len() implies world.entities@[a].id
                != world.entities@[b].id by {
                assert(old(world).entities@[a].id != old(world).entities@[b].id);
            }
        }
    }
    expired
}

/// A window that does not run out this tick is still present after the
/// expiry pass: within one invulnerability window, later batches keep
/// being dropped.
pub proof fn lemma_window_outlasts_tick(s: Seq<CombatEntity>, i: int, delta_ms: u64)
    requires
        0 <= i < s.len(),
        s[i].invulnerability is Some,
        !s[i].invulnerability->Some_0.timer.spec_just_finished(delta_ms),
    ensures
        s.map(|j: int, e: CombatEntity| spec_tick_invulnerability(e, delta_ms))[
            i
        ].invulnerability is Some,
        s.map(|j: int, e: CombatEntity| spec_tick_invulnerability(e, delta_ms))[i].id == s[
            i
        ].id,
{
}

/// Requests against an invulnerable target change nothing and notify
/// nobody, however many arrive in the batch.
pub proof fn lemma_invulnerable_target_drops_batch(
    s: Seq<CombatEntity>,
    evs: Seq<TryDamageEvent>,
    t: u64,
)
    requires
        entity_invulnerable(s, t),
        forall|k: int| 0 <= k < evs.len() ==> (#[trigger] evs[k]).target_entity == t,
    ensures
        spec_process_damage(s, evs).0 == s,
        spec_process_damage(s, evs).1 == Seq::<DamageOccurredEvent>::empty(),
    decreases evs.len(),
{
    reveal_with_fuel(spec_process_damage, 2);
    if evs.len() > 0 {
        assert(evs[0].target_entity == t);
        lemma_invulnerable_target_drops_batch(s, evs.drop_first(), t);
        assert(spec_process_damage(s, evs).1 =~= Seq::<DamageOccurredEvent>::empty());
    }
}

/// Requests against a target that no longer exists are all skipped: the
/// pipeline never fails on a despawn race, it drops the requests.
pub proof fn lemma_missing_target_skipped(
    s: Seq<CombatEntity>,
    evs: Seq<TryDamageEvent>,
    t: u64,
)
    requires
        !has_entity(s, t),
        forall|k: int| 0 <= k < evs.len() ==> (#[trigger] evs[k]).target_entity == t,
    ensures
        spec_process_damage(s, evs).0 == s,
        spec_process_damage(s, evs).1 == Seq::<DamageOccurredEvent>::empty(),
    decreases evs.len(),
{
    reveal_with_fuel(spec_process_damage, 2);
    if evs.len() > 0 {
        lemma_missing_target_skipped(s, evs.drop_first(), t);
        assert(spec_process_damage(s, evs).1 =~= Seq::<DamageOccurredEvent>::empty());
    }
}

/// Any number of requests against one un-invulnerable target within a single
/// batch: exactly the first one reduces health — once — and opens the
/// invulnerability window; every later request in the batch is a no-op, and
/// exactly one notification is emitted. Entities other than the target are
/// untouched.
pub proof fn lemma_first_request_lands_rest_dropped(
    s: Seq<CombatEntity>,
    evs: Seq<TryDamageEvent>,
    t: u64,
    i: int,
)
    requires
        distinct_ids(s),
        0 <= i < s.len(),
        s[i].id == t,
        s[i].invulnerability is None,
        evs.len() >= 1,
        forall|k: int| 0 <= k < evs.len() ==> (#[trigger] evs[k]).target_entity == t,
    ensures
        spec_process_damage(s, evs).1 =~= seq![
            DamageOccurredEvent { target_entity: t, damage: evs[0].damage },
        ],
        spec_process_damage(s, evs).0.len() == s.len(),
        spec_process_damage(s, evs).0[i] == spec_damaged(s[i], evs[0].damage),
        forall|j: int|
            0 <= j < s.len() && j != i ==> spec_process_damage(s, evs).0[j] == s[j],
{
    reveal_with_fuel(spec_process_damage, 2);
    lemma_found_entity_settles_specs(s, t, i);
    assert(evs[0].target_entity == t);
    let s1 = spec_apply_damage(s, t, evs[0].damage);
    assert(spec_step_damage(s, evs[0]).0 == s1);
    assert forall|j: int| 0 <= j < s.len() && j != i implies s[j].id != t by {
        if j < i {
            assert(s[j].id != s[i].id);
        } else {
            assert(s[i].id != s[j].id);
        }
    }
    assert(s1[i] == spec_damaged(s[i], evs[0].damage));
    assert(s1[i].id == t && s1[i].invulnerability is Some);
    assert(entity_invulnerable(s1, t));
    lemma_invulnerable_target_drops_batch(s1, evs.drop_first(), t);
    assert(spec_process_damage(s, evs).0 == s1);
}

/// When the entity with the sought id stands at position `i` and ids are
/// distinct, the two existential tests of the pipeline collapse onto that
/// position.
proof fn lemma_found_entity_settles_specs(s: Seq<CombatEntity>, id: u64, i: int)
    requires
        distinct_ids(s),
        0 <= i < s.len(),
        s[i].id == id,
    ensures
        has_entity(s, id),
        entity_invulnerable(s, id) == (s[i].invulnerability is Some),
{
    if s[i].invulnerability is Some {
        assert(entity_invulnerable(s, id));
    } else {
        assert forall|j: int|
            0 <= j < s.len() && s[j].id == id implies !(s[j].invulnerability is Some) by {
            if j < i {
                assert(s[j].id != s[i].id);
            } else if j > i {
                assert(s[i].id != s[j].id);
            }
        }
    }
}

} // verus!
