//! Faction bitmask: a small closed set of flags naming which gameplay side an
//! entity belongs to. Combinable by bitwise or; membership is tested by a
//! non-empty bitwise and. The empty mask matches nothing.

use vstd::prelude::*;

verus! {

/// Bit for the player character.
pub const PLAYER_BIT: u8 = 1;
/// Bit for enemy spawners.
pub const ENEMY_BIT: u8 = 2;
/// Bit for hazards produced by enemies.
pub const ENEMY_BULLETS_BIT: u8 = 4;
/// All faction bits together.
pub const ALL_FACTION_BITS: u8 = 7;

/// Two masks overlap when they share at least one bit.
pub open spec fn masks_overlap(a: u8, b: u8) -> bool {
    a & b != 0
}

/// A set of factions that can receive upgrades, stored as a plain bitset over
/// the three faction bits.
#[derive(Clone, Copy, Debug, PartialEq, Eq, Structural)]
pub struct UpgradesReceiverFaction {
    pub bits: u8,
}

impl UpgradesReceiverFaction {
    /// Only the three named bits may be set.
    pub open spec fn wf(self) -> bool {
        self.bits & ALL_FACTION_BITS == self.bits
    }

    /// The empty mask: belongs to no faction, matches nothing.
    pub fn none() -> (r: Self)
        ensures
            r.bits == 0,
            r.wf(),
    {
        let r = UpgradesReceiverFaction { bits: 0 };
        proof {
            assert(0u8 & ALL_FACTION_BITS == 0u8) by (bit_vector);
        }
        r
    }

    /// The player faction.
    pub fn player() -> (r: Self)
        ensures
            r.bits == PLAYER_BIT,
            r.wf(),
    {
        let r = UpgradesReceiverFaction { bits: PLAYER_BIT };
        proof {
            assert(1u8 & 7u8 == 1u8) by (bit_vector);
        }
        r
    }

    /// The enemy faction.
    pub fn enemy() -> (r: Self)
        ensures
            r.bits == ENEMY_BIT,
            r.wf(),
    {
        let r = UpgradesReceiverFaction { bits: ENEMY_BIT };
        proof {
            assert(2u8 & 7u8 == 2u8) by (bit_vector);
        }
        r
    }

    /// The faction of enemy-made hazards.
    pub fn enemy_bullets() -> (r: Self)
        ensures
            r.bits == ENEMY_BULLETS_BIT,
            r.wf(),
    {
        let r = UpgradesReceiverFaction { bits: ENEMY_BULLETS_BIT };
        proof {
            assert(4u8 & 7u8 == 4u8) by (bit_vector);
        }
        r
    }

    /// Union of two masks.
    pub fn or(self, other: Self) -> (r: Self)
        ensures
            r.bits == self.bits | other.bits,
    {
        UpgradesReceiverFaction { bits: self.bits | other.bits }
    }

    /// Intersection of two masks.
    pub fn and(self, other: Self) -> (r: Self)
        ensures
            r.bits == self.bits & other.bits,
    {
        UpgradesReceiverFaction { bits: self.bits & other.bits }
    }

    /// True when no bit is set.
    pub fn is_none(self) -> (r: bool)
        ensures
            r == (self.bits == 0),
    {
        self.bits == 0
    }

    /// True when the two masks share a bit.
    pub fn intersects(self, other: Self) -> (r: bool)
        ensures
            r == masks_overlap(self.bits, other.bits),
    {
        !self.and(other).is_none()
    }
}

/// The empty mask matches nothing: no mask overlaps it, from either side.
pub proof fn lemma_empty_mask_matches_nothing(m: u8)
    ensures
        !masks_overlap(0, m),
        !masks_overlap(m, 0),
{
    assert(0u8 & m == 0) by (bit_vector);
    assert(m & 0u8 == 0) by (bit_vector);
}

/// Overlap is symmetric: the receiver and the upgrade mask can be tested in
/// either order.
pub proof fn lemma_overlap_symmetric(a: u8, b: u8)
    ensures
        masks_overlap(a, b) == masks_overlap(b, a),
{
    assert(a & b == b & a) by (bit_vector);
}

} // verus!
