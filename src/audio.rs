//! AudioContext fingerprinting defense: which audio methods get noise.

use crate::text::str_eq;
use vstd::prelude::*;

verus! {

/// The audio methods whose output is noised.
pub open spec fn is_noised_audio_method(m: Seq<char>) -> bool {
    m == "getFloatFrequencyData"@ || m == "getByteFrequencyData"@ || m
        == "getFloatTimeDomainData"@ || m == "getByteTimeDomainData"@ || m
        == "createOscillator"@ || m == "createDynamicsCompressor"@
}

/// Audio defense configuration.
#[derive(Debug, Clone)]
pub struct AudioDefense {
    /// Seed for this identity
    seed: u64,
}

impl AudioDefense {
    /// The seed of the noise.
    pub closed spec fn seed_value(&self) -> u64 {
        self.seed
    }

    /// Create a new audio defense.
    pub fn new(seed: u64) -> (r: Self)
        ensures
            r.seed_value() == seed,
    {
        AudioDefense { seed }
    }

    /// The seed of the noise.
    pub fn seed(&self) -> (r: u64)
        ensures
            r == self.seed_value(),
    {
        self.seed
    }

    /// Check if an audio method should have noise applied.
    pub fn should_apply_noise(method: &str) -> (r: bool)
        ensures
            r == is_noised_audio_method(method@),
    {
        str_eq(method, "getFloatFrequencyData") || str_eq(method, "getByteFrequencyData")
            || str_eq(method, "getFloatTimeDomainData") || str_eq(method, "getByteTimeDomainData")
            || str_eq(method, "createOscillator") || str_eq(method, "createDynamicsCompressor")
    }
}

} // verus!
