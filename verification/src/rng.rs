//! The only place where the library draws randomness. Each function wraps one
//! sampling routine of the `rand` crate; the contracts state only what holds
//! of every possible outcome, never which outcome is drawn.

use vstd::prelude::*;

verus! {

/// Relies on rand::seq::index::sample (with rand::thread_rng as the source of
/// randomness): exactly `count` distinct indices from `0..len`, in random
/// order; it panics when `count > len`, which the precondition rules out.
#[verifier::external_body]
pub fn sample_indices(len: usize, count: usize) -> (r: Vec<usize>)
    requires
        count <= len,
    ensures
        r@.len() == count,
        forall|i: int| 0 <= i < r@.len() ==> #[trigger] r@[i] < len,
        forall|i: int, j: int| 0 <= i < j < r@.len() ==> r@[i] != r@[j],
{
    rand::seq::index::sample(&mut rand::thread_rng(), len, count).into_vec()
}

/// Relies on rand::seq::SliceRandom::shuffle (with rand::thread_rng): an
/// in-place Fisher-Yates pass, so the result is a permutation of the input.
#[verifier::external_body]
pub fn shuffle_vec<T>(v: &mut Vec<T>)
    ensures
        final(v)@.len() == old(v)@.len(),
        final(v)@.to_multiset() == old(v)@.to_multiset(),
{
    rand::seq::SliceRandom::shuffle(v.as_mut_slice(), &mut rand::thread_rng())
}

/// Relies on rand::Rng::gen_range (with rand::thread_rng): a value drawn from
/// `0..n`; it panics on an empty range, which the precondition rules out.
#[verifier::external_body]
pub fn rand_below(n: usize) -> (r: usize)
    requires
        n >= 1,
    ensures
        r < n,
{
    rand::Rng::gen_range(&mut rand::thread_rng(), 0..n)
}

} // verus!
