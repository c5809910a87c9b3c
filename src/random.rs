//! Random draws, all made by the rand crate: the thread-local generator for
//! per-request choices, and a ChaCha20 stream for identities derived from a
//! seed. Nothing is promised of a drawn value beyond its range.

use rand::seq::SliceRandom;
use rand::Rng;
use rand::SeedableRng;
use rand_chacha::ChaCha20Rng;
use vstd::prelude::*;

verus! {

/// rand_chacha's `ChaCha20Rng`, carried through as an opaque generator.
#[verifier::external_type_specification]
#[verifier::external_body]
pub struct ExChaCha20Rng(ChaCha20Rng);

/// Relies on rand's `thread_rng` and `Rng::gen_range`: a value of `0..n`
/// (rand panics on an empty range, which `requires` leaves out).
#[verifier::external_body]
pub(crate) fn random_below(n: usize) -> (r: usize)
    requires
        n > 0,
    ensures
        r < n,
{
    rand::thread_rng().gen_range(0..n)
}

/// Relies on rand's `thread_rng` and `Rng::gen_range`: a value of `lo..=hi`.
#[verifier::external_body]
pub(crate) fn random_u64_between(lo: u64, hi: u64) -> (r: u64)
    requires
        lo <= hi,
    ensures
        lo <= r <= hi,
{
    rand::thread_rng().gen_range(lo..=hi)
}

/// Relies on rand's `thread_rng` and `Rng::gen_range`: a value of `lo..=hi`.
#[verifier::external_body]
pub(crate) fn random_usize_between(lo: usize, hi: usize) -> (r: usize)
    requires
        lo <= hi,
    ensures
        lo <= r <= hi,
{
    rand::thread_rng().gen_range(lo..=hi)
}

/// Relies on rand's `thread_rng` and `Rng::fill`: thirty-two random bytes.
#[verifier::external_body]
pub(crate) fn random_seed() -> (r: [u8; 32]) {
    let mut seed = [0u8; 32];
    rand::thread_rng().fill(&mut seed);
    seed
}

/// Relies on `rand::random`: a random `u64`.
#[verifier::external_body]
pub(crate) fn random_u64() -> (r: u64) {
    rand::random()
}

/// Relies on rand's `thread_rng` and `Rng::fill`: `n` random bytes.
#[verifier::external_body]
pub(crate) fn random_bytes(n: usize) -> (r: Vec<u8>)
    ensures
        r@.len() == n,
{
    let mut bytes = vec![0u8; n];
    rand::thread_rng().fill(&mut bytes[..]);
    bytes
}

/// Relies on `SeedableRng::from_seed` of rand_chacha's `ChaCha20Rng`: a
/// generator whose stream depends on the seed alone.
#[verifier::external_body]
pub(crate) fn seeded_rng(seed: [u8; 32]) -> (r: ChaCha20Rng) {
    ChaCha20Rng::from_seed(seed)
}

/// Relies on `Rng::gen::<u64>` on a `ChaCha20Rng`: the next `u64` of the stream.
#[verifier::external_body]
pub(crate) fn next_u64_from(rng: &mut ChaCha20Rng) -> (r: u64) {
    rng.gen()
}

/// Relies on `Rng::gen_range` on a `ChaCha20Rng`: a value of `0..n`.
#[verifier::external_body]
pub(crate) fn index_below_from(rng: &mut ChaCha20Rng, n: usize) -> (r: usize)
    requires
        n > 0,
    ensures
        r < n,
{
    rng.gen_range(0..n)
}

/// Relies on `SliceRandom::choose` with a `ChaCha20Rng`: one element of the
/// slice, or nothing when the slice is empty.
#[verifier::external_body]
pub(crate) fn choose_from<T: Copy>(rng: &mut ChaCha20Rng, items: &[T]) -> (r: Option<T>)
    ensures
        r is Some <==> items@.len() > 0,
        r matches Some(x) ==> items@.contains(x),
{
    items.choose(rng).copied()
}

} // verus!
