//! A pool of candidate selections — available upgrades, end-of-level
//! effects — from which the game draws random choices. Drawing `n` options
//! picks up to `n` distinct pool entries without replacement, pads with
//! placeholders so the menu always shows `n` slots, and shuffles the final
//! ordering so the placeholder positions are not predictable.

use vstd::prelude::*;
use crate::rng::sample_indices;
use crate::rng::shuffle_vec;

verus! {

/// A set of distinct pool positions of the right count: as many as asked
/// for, or the whole pool when it is smaller.
pub open spec fn valid_picks<T>(pool: Seq<T>, picks: Seq<int>, n: int) -> bool {
    &&& picks.no_duplicates()
    &&& picks.len() == if n <= pool.len() {
        n
    } else {
        pool.len() as int
    }
    &&& forall|i: int| 0 <= i < picks.len() ==> 0 <= #[trigger] picks[i] < pool.len()
}

/// The picked entries wrapped in `Some`, followed by enough `None`
/// placeholders to fill `n` slots.
pub open spec fn padded_selection<T>(pool: Seq<T>, picks: Seq<int>, n: int) -> Seq<Option<T>> {
    picks.map_values(|j: int| Some(pool[j])) + Seq::new(
        (n - picks.len()) as nat,
        |i: int| None::<T>,
    )
}

/// A pool of selections to pick from.
#[derive(Debug)]
pub struct SelectionsPool<T: Copy> {
    items: Vec<T>,
}

impl<T: Copy> View for SelectionsPool<T> {
    type V = Seq<T>;

    closed spec fn view(&self) -> Seq<T> {
        self.items@
    }
}

impl<T: Copy> SelectionsPool<T> {
    /// Offer one more candidate.
    pub fn add_item(&mut self, item: T)
        ensures
            final(self)@ == old(self)@.push(item),
    {
        self.items.push(item);
    }

    pub fn len(&self) -> (n: usize)
        ensures
            n == self@.len(),
    {
        self.items.len()
    }

    pub fn get_item(&self, i: usize) -> (r: T)
        requires
            i < self@.len(),
        ensures
            r == self@[i as int],
    {
        self.items[i]
    }

    /// Up to `count` distinct entries chosen at random without replacement,
    /// padded with `None` to exactly `count` slots, in shuffled order. The
    /// contract fixes everything but the randomness: which entries may
    /// appear, how many, and the slot count; it deliberately says nothing
    /// about which entries or which positions are drawn.
    pub fn get_multiple_random(&self, count: usize) -> (options: Vec<Option<T>>)
        ensures
            options@.len() == count,
            exists|picks: Seq<int>|
                #[trigger] valid_picks(self@, picks, count as int) && options@.to_multiset()
                    == padded_selection(self@, picks, count as int).to_multiset(),
    {
        let len = self.items.len();
        let k = if count <= len {
            count
        } else {
            len
        };
        let idxs = sample_indices(len, k);
        let ghost picks = idxs@.map_values(|u: usize| u as int);
        proof {
            assert forall|i: int, j: int|
                0 <= i < picks.len() && 0 <= j < picks.len() && i != j implies picks[i]
                != picks[j] by {
                if i < j {
                    assert(idxs@[i] != idxs@[j]);
                } else {
                    assert(idxs@[j] != idxs@[i]);
                }
            }
            assert(valid_picks(self@, picks, count as int));
        }
        let mut options: Vec<Option<T>> = Vec::new();
        let mut i: usize = 0;
        while i < k
            invariant
                i <= k,
                k <= count,
                k == picks.len(),
                k <= self@.len(),
                idxs@.len() == k,
                picks == idxs@.map_values(|u: usize| u as int),
                forall|j: int| 0 <= j < k ==> 0 <= #[trigger] picks[j] < self@.len(),
                options@ == picks.take(i as int).map_values(|j: int| Some(self@[j])),
            decreases k - i,
        {
            let idx = idxs[i];
            proof {
                assert(picks[i as int] == idx as int);
            }
            options.push(Some(self.items[idx]));
            proof {
                assert(options@ =~= picks.take(i + 1).map_values(|j: int| Some(self@[j])));
            }
            i += 1;
        }
        proof {
            assert(picks.take(k as int) =~= picks);
        }
        while options.len() < count
            invariant
                k <= count,
                k == picks.len(),
                k <= options@.len() <= count,
                forall|j: int| 0 <= j < k ==> 0 <= #[trigger] picks[j] < self@.len(),
                options@.take(k as int) == picks.map_values(|j: int| Some(self@[j])),
                forall|j: int| k <= j < options@.len() ==> options@[j] is None,
            decreases count - options@.len(),
        {
            options.push(None);
            proof {
                assert(options@.take(k as int) =~= options@.drop_last().take(k as int));
            }
        }
        proof {
            assert(options@ =~= padded_selection(self@, picks, count as int));
        }
        shuffle_vec(&mut options);
        options
    }
}

impl<T: Copy> Default for SelectionsPool<T> {
    /// An empty pool.
    fn default() -> (r: Self)
        ensures
            r@ =~= Seq::<T>::empty(),
    {
        SelectionsPool { items: Vec::new() }
    }
}

} // verus!
