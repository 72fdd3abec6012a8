//! Trusted randomness: thin wrappers around the `rand` crate.
//!
//! Nothing can be promised of a random value beyond its range, so each
//! wrapper states only what holds of every outcome.

use rand::seq::SliceRandom;
use vstd::prelude::*;

use crate::single_player::FishSlot;

verus! {

/// Relies on `rand::random_range` over `0..len`: a uniformly random index
/// below `len`. The call panics on an empty range, so the range is never
/// empty here.
#[verifier::external_body]
pub fn pick_index(len: usize) -> (r: usize)
    requires
        1 <= len,
    ensures
        r < len,
{
    rand::random_range(0..len)
}

/// Relies on `rand::seq::SliceRandom::shuffle`: a uniformly random
/// permutation of the slice, so exactly the same items in some order.
#[verifier::external_body]
pub fn shuffle_slots(v: &mut Vec<FishSlot>)
    ensures
        final(v)@.to_multiset() == old(v)@.to_multiset(),
{
    v.shuffle(&mut rand::rng());
}

} // verus!
