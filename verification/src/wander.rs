//! Linear back-and-forth movement between two fixed points along one axis.
//! The mover steps toward its current destination; on the tick where the
//! step would overshoot, it lands exactly on the destination and reverses —
//! it never oscillates past and back.

use vstd::prelude::*;
use crate::timer::MAX_TIME_MS;

verus! {

/// Coordinates stay within this bound so distances and squares stay exact.
pub const MAX_COORD: i64 = 1_000_000_000;

/// Speed (units per second) stays within this bound so a step fits in a
/// machine word even for the longest allowed tick.
pub const MAX_SPEED: u64 = 1_000_000;

/// Which endpoint the mover is heading toward.
#[derive(Debug, Clone, Copy, PartialEq, Eq, Structural)]
pub enum WanderDirection {
    ToEnd,
    ToStart,
}

impl WanderDirection {
    /// The opposite heading.
    pub fn other(&self) -> (r: WanderDirection)
        ensures
            r == (match self {
                WanderDirection::ToEnd => WanderDirection::ToStart,
                WanderDirection::ToStart => WanderDirection::ToEnd,
            }),
    {
        match self {
            WanderDirection::ToEnd => WanderDirection::ToStart,
            WanderDirection::ToStart => WanderDirection::ToEnd,
        }
    }
}

/// A wandering mover's parameters and heading, along a single axis.
#[derive(Debug, Clone, Copy, PartialEq, Eq, Structural)]
pub struct Wander {
    pub start: i64,
    pub end: i64,
    /// Units per second.
    pub speed: u64,
    pub direction: WanderDirection,
}

impl Wander {
    pub open spec fn wf(self) -> bool {
        &&& -MAX_COORD <= self.start <= MAX_COORD
        &&& -MAX_COORD <= self.end <= MAX_COORD
        &&& self.speed <= MAX_SPEED
    }

    /// The endpoint currently being headed toward.
    pub open spec fn spec_destination(self) -> i64 {
        match self.direction {
            WanderDirection::ToEnd => self.end,
            WanderDirection::ToStart => self.start,
        }
    }

    /// A position between the two endpoints, whichever way round they lie.
    pub open spec fn spec_in_range(self, pos: i64) -> bool {
        if self.start <= self.end {
            self.start <= pos <= self.end
        } else {
            self.end <= pos <= self.start
        }
    }
}

/// The distance covered in one tick: speed is per second, the tick is in
/// milliseconds, and the fraction below one unit is dropped.
pub open spec fn spec_step(speed: u64, delta_ms: u64) -> int {
    speed * delta_ms / 1000
}

/// One movement tick. If the computed step would pass the destination, the
/// position is clamped to the destination exactly and the heading flips on
/// that same tick; otherwise the mover advances by the step and keeps its
/// heading. Arrival is detected by comparing squared distances. The position
/// never leaves the segment between the two endpoints.
pub fn wander_behaviour(wander: &mut Wander, translation: &mut i64, delta_ms: u64)
    requires
        old(wander).wf(),
        old(wander).spec_in_range(*old(translation)),
        delta_ms <= MAX_TIME_MS,
    ensures
        final(wander).start == old(wander).start,
        final(wander).end == old(wander).end,
        final(wander).speed == old(wander).speed,
        final(wander).wf(),
        final(wander).spec_in_range(*final(translation)),
        ({
            let dest = old(wander).spec_destination();
            let remaining = if dest >= *old(translation) {
                dest - *old(translation)
            } else {
                *old(translation) - dest
            };
            let step = spec_step(old(wander).speed, delta_ms);
            if step > remaining {
                &&& *final(translation) == dest
                &&& final(wander).direction != old(wander).direction
            } else {
                &&& final(wander).direction == old(wander).direction
                &&& *final(translation) == if dest >= *old(translation) {
                    *old(translation) + step
                } else {
                    *old(translation) - step
                }
            }
        }),
{
    let destination = match wander.direction {
        WanderDirection::ToEnd => wander.end,
        WanderDirection::ToStart => wander.start,
    };
    let remaining: u64 = if destination >= *translation {
        (destination - *translation) as u64
    } else {
        (*translation - destination) as u64
    };
    proof {
        vstd::arithmetic::mul::lemma_mul_upper_bound(
            wander.speed as int,
            MAX_SPEED as int,
            delta_ms as int,
            MAX_TIME_MS as int,
        );
    }
    let desired: u64 = wander.speed * delta_ms / 1000;
    proof {
        vstd::arithmetic::mul::lemma_mul_upper_bound(
            desired as int,
            u64::MAX as int,
            desired as int,
            u64::MAX as int,
        );
        vstd::arithmetic::mul::lemma_mul_upper_bound(
            remaining as int,
            u64::MAX as int,
            remaining as int,
            u64::MAX as int,
        );
    }
    let overshoot = (desired as u128) * (desired as u128) > (remaining as u128) * (remaining
        as u128);
    proof {
        lemma_square_order(desired as int, remaining as int);
    }
    if overshoot {
        *translation = destination;
        wander.direction = wander.direction.other();
    } else {
        if destination >= *translation {
            *translation = *translation + desired as i64;
        } else {
            *translation = *translation - desired as i64;
        }
    }
}

/// For nonnegative values, comparing squares is the same as comparing the
/// values themselves — the tie-break the overshoot test relies on.
proof fn lemma_square_order(a: int, b: int)
    requires
        a >= 0,
        b >= 0,
    ensures
        (a * a > b * b) == (a > b),
{
    assert((a * a > b * b) == (a > b)) by (nonlinear_arith)
        requires
            a >= 0,
            b >= 0,
    ;
}

} // verus!
