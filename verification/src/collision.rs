//! Routing of per-tick collision-started events into gameplay reactions:
//! bullets hitting the player are despawned and become damage requests,
//! lasers touching the player deal their damage, and the melee sweep
//! destroys bullets. Participants are checked in both orders of each event
//! — a deliberate, consistent policy where the engine may report either.

use vstd::prelude::*;
use crate::health::TryDamageEvent;
use crate::laser::Laser;
use crate::vec2::Vec2i;

verus! {

/// A physics notification naming two participant handles.
#[derive(Debug, Clone, Copy, PartialEq, Eq, Structural)]
pub enum CollisionEvent {
    Started(u64, u64),
    Stopped(u64, u64),
}

/// A bullet hazard in flight.
#[derive(Debug, Clone, Copy, PartialEq, Eq, Structural)]
pub struct Bullet {
    pub direction: Vec2i,
    pub damage: i64,
}

/// The first bullet in the list carrying this id, if any.
pub open spec fn spec_find_bullet(bullets: Seq<(u64, Bullet)>, id: u64) -> Option<Bullet>
    decreases bullets.len(),
{
    if bullets.len() == 0 {
        None
    } else if bullets[0].0 == id {
        Some(bullets[0].1)
    } else {
        spec_find_bullet(bullets.drop_first(), id)
    }
}

/// Skipping past non-matching entries does not change the first match.
proof fn lemma_find_bullet_skip(s: Seq<(u64, Bullet)>, id: u64, i: int)
    requires
        0 <= i <= s.len(),
        forall|j: int| 0 <= j < i ==> (#[trigger] s[j]).0 != id,
    ensures
        spec_find_bullet(s, id) == spec_find_bullet(s.skip(i), id),
    decreases i,
{
    if i > 0 {
        assert(s[0].0 != id);
        lemma_find_bullet_skip(s.drop_first(), id, i - 1);
        assert(s.drop_first().skip(i - 1) =~= s.skip(i));
    } else {
        assert(s.skip(0) =~= s);
    }
}

/// Find a bullet by id.
pub fn find_bullet(bullets: &Vec<(u64, Bullet)>, id: u64) -> (r: Option<Bullet>)
    ensures
        r == spec_find_bullet(bullets@, id),
{
    let n = bullets.len();
    let mut i: usize = 0;
    while i < n
        invariant
            i <= n,
            n == bullets@.len(),
            forall|j: int| 0 <= j < i ==> (#[trigger] bullets@[j]).0 != id,
        decreases n - i,
    {
        let (bid, b) = bullets[i];
        if bid == id {
            proof {
                lemma_find_bullet_skip(bullets@, id, i as int);
                assert(bullets@.skip(i as int)[0] == bullets@[i as int]);
            }
            return Some(b);
        }
        i += 1;
    }
    proof {
        lemma_find_bullet_skip(bullets@, id, n as int);
        assert(bullets@.skip(n as int) =~= Seq::<(u64, Bullet)>::empty());
    }
    None
}

/// Whether an id is in a handle list.
pub fn contains_id(ids: &Vec<u64>, id: u64) -> (r: bool)
    ensures
        r == ids@.contains(id),
{
    let n = ids.len();
    let mut i: usize = 0;
    while i < n
        invariant
            i <= n,
            n == ids@.len(),
            forall|j: int| 0 <= j < i ==> ids@[j] != id,
        decreases n - i,
    {
        if ids[i] == id {
            return true;
        }
        i += 1;
    }
    false
}

/// What one collision event means for the player: the player handle, the
/// bullet handle and its damage, when one participant is the player and the
/// other a bullet — in either order, the player side tried first.
pub open spec fn spec_player_hit(
    ev: CollisionEvent,
    players: Seq<u64>,
    bullets: Seq<(u64, Bullet)>,
) -> Option<(u64, u64, i64)> {
    match ev {
        CollisionEvent::Started(a, b) => {
            if players.contains(a) && spec_find_bullet(bullets, b) is Some {
                Some((a, b, spec_find_bullet(bullets, b)->Some_0.damage))
            } else if players.contains(b) && spec_find_bullet(bullets, a) is Some {
                Some((b, a, spec_find_bullet(bullets, a)->Some_0.damage))
            } else {
                None
            }
        },
        CollisionEvent::Stopped(_, _) => None,
    }
}

/// The whole tick's worth of player-bullet contacts, in event order: which
/// bullets to despawn, and the damage requests to enqueue.
pub open spec fn spec_player_collision(
    events: Seq<CollisionEvent>,
    players: Seq<u64>,
    bullets: Seq<(u64, Bullet)>,
) -> (Seq<u64>, Seq<TryDamageEvent>)
    decreases events.len(),
{
    if events.len() == 0 {
        (Seq::empty(), Seq::empty())
    } else {
        let (d, t) = spec_player_collision(events.drop_last(), players, bullets);
        match spec_player_hit(events.last(), players, bullets) {
            Some(hit) => (
                d.push(hit.1),
                t.push(TryDamageEvent { target_entity: hit.0, damage: hit.2 }),
            ),
            None => (d, t),
        }
    }
}

/// Drain the tick's collision events against the live players and bullets:
/// each bullet that touched a player is despawned and one damage request is
/// enqueued for that player, in event order.
pub fn player_collision(
    events: &Vec<CollisionEvent>,
    players: &Vec<u64>,
    bullets: &Vec<(u64, Bullet)>,
) -> (r: (Vec<u64>, Vec<TryDamageEvent>))
    ensures
        r.0@ == spec_player_collision(events@, players@, bullets@).0,
        r.1@ == spec_player_collision(events@, players@, bullets@).1,
{
    let mut despawns: Vec<u64> = Vec::new();
    let mut damage: Vec<TryDamageEvent> = Vec::new();
    let n = events.len();
    let mut i: usize = 0;
    while i < n
        invariant
            i <= n,
            n == events@.len(),
            despawns@ == spec_player_collision(events@.take(i as int), players@, bullets@).0,
            damage@ == spec_player_collision(events@.take(i as int), players@, bullets@).1,
        decreases n - i,
    {
        let ev = events[i];
        match ev {
            CollisionEvent::Started(a, b) => {
                if contains_id(players, a) && find_bullet(bullets, b).is_some() {
                    let bullet = find_bullet(bullets, b).unwrap();
                    despawns.push(b);
                    damage.push(TryDamageEvent { target_entity: a, damage: bullet.damage });
                } else if contains_id(players, b) && find_bullet(bullets, a).is_some() {
                    let bullet = find_bullet(bullets, a).unwrap();
                    despawns.push(a);
                    damage.push(TryDamageEvent { target_entity: b, damage: bullet.damage });
                }
            },
            CollisionEvent::Stopped(_, _) => {},
        }
        proof {
            assert(events@.take(i + 1).drop_last() == events@.take(i as int));
            assert(events@.take(i + 1).last() == events@[i as int]);
        }
        i += 1;
    }
    proof {
        assert(events@.take(n as int) =~= events@);
    }
    (despawns, damage)
}

/// The first laser in the list carrying this id, if any.
pub open spec fn spec_find_laser(lasers: Seq<(u64, Laser)>, id: u64) -> Option<Laser>
    decreases lasers.len(),
{
    if lasers.len() == 0 {
        None
    } else if lasers[0].0 == id {
        Some(lasers[0].1)
    } else {
        spec_find_laser(lasers.drop_first(), id)
    }
}

proof fn lemma_find_laser_skip(s: Seq<(u64, Laser)>, id: u64, i: int)
    requires
        0 <= i <= s.len(),
        forall|j: int| 0 <= j < i ==> (#[trigger] s[j]).0 != id,
    ensures
        spec_find_laser(s, id) == spec_find_laser(s.skip(i), id),
    decreases i,
{
    if i > 0 {
        assert(s[0].0 != id);
        lemma_find_laser_skip(s.drop_first(), id, i - 1);
        assert(s.drop_first().skip(i - 1) =~= s.skip(i));
    } else {
        assert(s.skip(0) =~= s);
    }
}

/// Find a laser by id.
pub fn find_laser(lasers: &Vec<(u64, Laser)>, id: u64) -> (r: Option<Laser>)
    ensures
        r == spec_find_laser(lasers@, id),
{
    let n = lasers.len();
    let mut i: usize = 0;
    while i < n
        invariant
            i <= n,
            n == lasers@.len(),
            forall|j: int| 0 <= j < i ==> (#[trigger] lasers@[j]).0 != id,
        decreases n - i,
    {
        let (lid, l) = lasers[i];
        if lid == id {
            proof {
                lemma_find_laser_skip(lasers@, id, i as int);
                assert(lasers@.skip(i as int)[0] == lasers@[i as int]);
            }
            return Some(l);
        }
        i += 1;
    }
    proof {
        lemma_find_laser_skip(lasers@, id, n as int);
        assert(lasers@.skip(n as int) =~= Seq::<(u64, Laser)>::empty());
    }
    None
}

/// What one collision event means for a firing laser: the damage request it
/// deals the player, in either participant order.
pub open spec fn spec_laser_hit(
    ev: CollisionEvent,
    players: Seq<u64>,
    lasers: Seq<(u64, Laser)>,
) -> Option<TryDamageEvent> {
    match ev {
        CollisionEvent::Started(a, b) => {
            if players.contains(a) && spec_find_laser(lasers, b) is Some {
                Some(
                    TryDamageEvent {
                        target_entity: a,
                        damage: spec_find_laser(lasers, b)->Some_0.damage,
                    },
                )
            } else if players.contains(b) && spec_find_laser(lasers, a) is Some {
                Some(
                    TryDamageEvent {
                        target_entity: b,
                        damage: spec_find_laser(lasers, a)->Some_0.damage,
                    },
                )
            } else {
                None
            }
        },
        CollisionEvent::Stopped(_, _) => None,
    }
}

/// The damage requests from lasers touching players this tick, in event
/// order.
pub open spec fn spec_laser_player_collision(
    events: Seq<CollisionEvent>,
    players: Seq<u64>,
    lasers: Seq<(u64, Laser)>,
) -> Seq<TryDamageEvent>
    decreases events.len(),
{
    if events.len() == 0 {
        Seq::empty()
    } else {
        let t = spec_laser_player_collision(events.drop_last(), players, lasers);
        match spec_laser_hit(events.last(), players, lasers) {
            Some(ev) => t.push(ev),
            None => t,
        }
    }
}

/// Drain the tick's collision events against the firing lasers: each laser
/// touching a player deals its damage as one request.
pub fn laser_player_collision(
    events: &Vec<CollisionEvent>,
    players: &Vec<u64>,
    lasers: &Vec<(u64, Laser)>,
) -> (damage: Vec<TryDamageEvent>)
    ensures
        damage@ == spec_laser_player_collision(events@, players@, lasers@),
{
    let mut damage: Vec<TryDamageEvent> = Vec::new();
    let n = events.len();
    let mut i: usize = 0;
    while i < n
        invariant
            i <= n,
            n == events@.len(),
            damage@ == spec_laser_player_collision(events@.take(i as int), players@, lasers@),
        decreases n - i,
    {
        let ev = events[i];
        match ev {
            CollisionEvent::Started(a, b) => {
                if contains_id(players, a) && find_laser(lasers, b).is_some() {
                    let laser = find_laser(lasers, b).unwrap();
                    damage.push(TryDamageEvent { target_entity: a, damage: laser.damage });
                } else if contains_id(players, b) && find_laser(lasers, a).is_some() {
                    let laser = find_laser(lasers, a).unwrap();
                    damage.push(TryDamageEvent { target_entity: b, damage: laser.damage });
                }
            },
            CollisionEvent::Stopped(_, _) => {},
        }
        proof {
            assert(events@.take(i + 1).drop_last() == events@.take(i as int));
            assert(events@.take(i + 1).last() == events@[i as int]);
        }
        i += 1;
    }
    proof {
        assert(events@.take(n as int) =~= events@);
    }
    damage
}

/// Which bullets one collision event sends to the melee sweep: a bullet is
/// destroyed whenever its other participant is a sword, each order checked
/// independently as its own contact.
pub open spec fn spec_sword_hits(
    ev: CollisionEvent,
    swords: Seq<u64>,
    bullets: Seq<u64>,
) -> Seq<u64> {
    match ev {
        CollisionEvent::Started(a, b) => {
            (if swords.contains(a) && bullets.contains(b) {
                seq![b]
            } else {
                Seq::empty()
            }) + (
            if swords.contains(b) && bullets.contains(a) {
                seq![a]
            } else {
                Seq::empty()
            })
        },
        CollisionEvent::Stopped(_, _) => Seq::empty(),
    }
}

/// The bullets destroyed by sword contact this tick, in event order.
pub open spec fn spec_bullet_collision(
    events: Seq<CollisionEvent>,
    swords: Seq<u64>,
    bullets: Seq<u64>,
) -> Seq<u64>
    decreases events.len(),
{
    if events.len() == 0 {
        Seq::empty()
    } else {
        spec_bullet_collision(events.drop_last(), swords, bullets) + spec_sword_hits(
            events.last(),
            swords,
            bullets,
        )
    }
}

/// Drain the tick's collision events against the active sword sweeps: every
/// bullet a sword touched is despawned.
pub fn bullet_collision(
    events: &Vec<CollisionEvent>,
    swords: &Vec<u64>,
    bullets: &Vec<u64>,
) -> (despawns: Vec<u64>)
    ensures
        despawns@ == spec_bullet_collision(events@, swords@, bullets@),
{
    let mut despawns: Vec<u64> = Vec::new();
    let n = events.len();
    let mut i: usize = 0;
    while i < n
        invariant
            i <= n,
            n == events@.len(),
            despawns@ == spec_bullet_collision(events@.take(i as int), swords@, bullets@),
        decreases n - i,
    {
        let ev = events[i];
        match ev {
            CollisionEvent::Started(a, b) => {
                if contains_id(swords, a) && contains_id(bullets, b) {
                    despawns.push(b);
                }
                if contains_id(swords, b) && contains_id(bullets, a) {
                    despawns.push(a);
                }
            },
            CollisionEvent::Stopped(_, _) => {},
        }
        proof {
            assert(events@.take(i + 1).drop_last() == events@.take(i as int));
            assert(events@.take(i + 1).last() == events@[i as int]);
            assert(despawns@ =~= spec_bullet_collision(
                events@.take(i + 1),
                swords@,
                bullets@,
            ));
        }
        i += 1;
    }
    proof {
        assert(events@.take(n as int) =~= events@);
    }
    despawns
}

} // verus!
