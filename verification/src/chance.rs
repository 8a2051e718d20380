//! Random choices, drawn with the `rand` crate's thread-local generator.

use vstd::prelude::*;

verus! {

/// A number drawn from `low..=high` (`rand::random_range(low..=high)`).
///
/// The contract claims only that the number lies in the range, which the
/// crate documents; it panics on an empty range, which `requires` leaves out.
/// How the number is distributed is left unsaid.
#[verifier::external_body]
pub fn random_between(low: u64, high: u64) -> (r: u64)
    requires
        low <= high,
    ensures
        low <= r <= high,
{
    rand::random_range(low..=high)
}

/// Positions of `amount` distinct items out of `n`
/// (`rand::seq::IteratorRandom::sample` over `0..n`).
///
/// The contract claims what the crate's reservoir sampling gives: all items
/// when there are fewer than `amount`, otherwise `amount` distinct ones. Which
/// items are picked, and in what order, is left unsaid.
#[verifier::external_body]
pub fn sample_positions(n: usize, amount: usize) -> (r: Vec<usize>)
    ensures
        r@.len() == if n < amount {
            n
        } else {
            amount
        },
        forall|i: int| 0 <= i < r@.len() ==> r@[i] < n,
        forall|i: int, j: int| 0 <= i < j < r@.len() ==> r@[i] != r@[j],
{
    let mut rng = rand::rng();
    rand::seq::IteratorRandom::sample(0..n, &mut rng, amount)
}

/// Puts the items of `v` in a random order (`rand::seq::SliceRandom::shuffle`).
///
/// The contract claims that the items stay the same, each as often as before;
/// their new order is left unsaid.
#[verifier::external_body]
pub fn shuffle_positions(v: &mut Vec<usize>)
    ensures
        final(v)@.len() == old(v)@.len(),
        final(v)@.to_multiset() == old(v)@.to_multiset(),
{
    let mut rng = rand::rng();
    rand::seq::SliceRandom::shuffle(v.as_mut_slice(), &mut rng);
}

} // verus!
