//! The deterministic noise behind the fingerprint defenses: std's
//! `DefaultHasher`, whose keys are fixed, applied to a seed and an input.

use std::collections::hash_map::DefaultHasher;
use std::hash::{Hash, Hasher};
use vstd::prelude::*;

verus! {

/// What `DefaultHasher` yields after hashing a seed and then an input; it
/// depends on the two words alone.
pub uninterp spec fn seeded_hash(seed: u64, input: u64) -> u64;

/// Relies on `DefaultHasher::new`, `Hash::hash` of `u64` and
/// `Hasher::finish`: the hash of the seed followed by the input.
#[verifier::external_body]
pub(crate) fn hash_with_seed(seed: u64, input: u64) -> (r: u64)
    ensures
        r == seeded_hash(seed, input),
{
    let mut hasher = DefaultHasher::new();
    seed.hash(&mut hasher);
    input.hash(&mut hasher);
    hasher.finish()
}

} // verus!
