//! A cyclic index over a fixed number of slots, used by the selectable menus
//! to track which child is highlighted. Stepping past either end wraps.

use vstd::prelude::*;
use vstd::arithmetic::div_mod::lemma_mod_add_multiples_vanish;
use vstd::arithmetic::div_mod::lemma_small_mod;

verus! {

/// A position among `limit` slots; `index` is always a valid slot number.
#[derive(Debug, Clone, Copy, PartialEq, Eq, Structural)]
pub struct Index {
    pub limit: usize,
    pub index: usize,
}

impl Index {
    /// There is at least one slot and the position points at one of them.
    pub open spec fn wf(self) -> bool {
        1 <= self.limit && self.index < self.limit
    }

    pub fn new(limit: usize, current: usize) -> (r: Index)
        requires
            limit >= 1,
        ensures
            r.limit == limit,
            r.index == current as int % limit as int,
            r.wf(),
    {
        Index { limit, index: Index::normalize(limit, current) }
    }

    /// Reduce an arbitrary position into the valid range.
    pub fn normalize(limit: usize, current: usize) -> (r: usize)
        requires
            limit >= 1,
        ensures
            r == current as int % limit as int,
            r < limit,
    {
        current % limit
    }

    /// Step the position by `change` slots, wrapping around in either
    /// direction. The most negative step is rejected because its magnitude
    /// is not representable.
    pub fn add(&mut self, change: i8)
        requires
            old(self).wf(),
            old(self).limit <= usize::MAX - 128,
            change != i8::MIN,
        ensures
            final(self).limit == old(self).limit,
            final(self).wf(),
            final(self).index == (old(self).index + change) % (old(self).limit as int),
    {
        let ghost m = self.limit as int;
        let ghost i0 = self.index as int;
        if change > 0 {
            self.index += change as usize;
        } else {
            let mag: usize = (-(change as i32)) as usize;
            let mut to_sub: usize = mag;
            while to_sub >= self.limit
                invariant
                    self.limit == old(self).limit,
                    self.index == old(self).index,
                    old(self).wf(),
                    m == self.limit as int,
                    i0 == self.index as int,
                    (i0 - to_sub) % m == (i0 - mag) % m,
                decreases to_sub,
            {
                proof {
                    lemma_mod_add_multiples_vanish(i0 - to_sub, m);
                }
                to_sub -= self.limit;
            }
            self.index = if self.index >= to_sub {
                self.index - to_sub
            } else {
                self.limit - to_sub + self.index
            };
            proof {
                if i0 >= to_sub {
                    lemma_small_mod((i0 - to_sub) as nat, m as nat);
                } else {
                    lemma_mod_add_multiples_vanish(i0 - to_sub, m);
                    lemma_small_mod((i0 - to_sub + m) as nat, m as nat);
                }
            }
        }
        self.index = Index::normalize(self.limit, self.index);
        proof {
            if change > 0 {
                assert(final(self).index == (i0 + change) % m);
            } else {
                lemma_small_mod(final(self).index as nat, m as nat);
            }
        }
    }
}

} // verus!
