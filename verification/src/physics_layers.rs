//! The collision group bits the physics collaborator is configured with:
//! which layer an entity is on (memberships) and which layers it collides
//! with (filters).

use vstd::prelude::*;

verus! {

pub const PLAYERS: u32 = 1;
pub const PLAYER_BULLETS: u32 = 2;
pub const BULLETS: u32 = 4;
pub const WALLS: u32 = 8;
pub const ALL: u32 = 0xffff_ffff;
pub const NONE: u32 = 0;

/// Which layers an entity is on, and which it collides with.
#[derive(Debug, Clone, Copy, PartialEq, Eq, Structural)]
pub struct CollisionGroups {
    pub memberships: u32,
    pub filters: u32,
}

impl CollisionGroups {
    pub fn new(memberships: u32, filters: u32) -> (r: CollisionGroups)
        ensures
            r.memberships == memberships,
            r.filters == filters,
    {
        CollisionGroups { memberships, filters }
    }
}

} // verus!
