//! Synthetic identities: every fingerprinting API answers from one
//! identity, drawn from small anonymity sets and replaced between requests.

use crate::hardware::{HardwareProfile, hardware_profiles};
use crate::random::{choose_from, next_u64_from, random_seed, seeded_rng};
use crate::screen::{ScreenBucket, screen_buckets};
use crate::text::owned;
use std::sync::Arc;
use vstd::prelude::*;

verus! {

/// The time zone offsets an identity may have, in minutes from UTC.
pub open spec fn timezone_offsets() -> Seq<i32> {
    seq![-480i32, -420i32, -360i32, -300i32, -240i32, 0i32, 60i32, 120i32, 180i32]
}

/// The platforms an identity may have.
pub open spec fn platform_names() -> Seq<Seq<char>> {
    seq!["Win32"@, "Linux x86_64"@, "MacIntel"@]
}

/// Synthetic identity for fingerprint consistency within a request.
#[derive(Debug, Clone)]
pub struct SyntheticIdentity {
    /// Seed for deterministic random generation
    seed: [u8; 32],
    /// Canvas noise seed
    pub canvas_seed: u64,
    /// WebGL noise seed
    pub webgl_seed: u64,
    /// Audio noise seed
    pub audio_seed: u64,
    /// Timezone offset (minutes from UTC)
    pub timezone_offset: i32,
    /// Platform string
    pub platform: String,
    /// Screen bucket
    pub screen_bucket: ScreenBucket,
    /// Hardware profile
    pub hardware: HardwareProfile,
}

impl SyntheticIdentity {
    /// The seed the identity was derived from.
    pub closed spec fn seed_view(&self) -> Seq<u8> {
        self.seed@
    }

    /// Every attribute lies in its anonymity set.
    pub closed spec fn in_anonymity_sets(&self) -> bool {
        &&& timezone_offsets().contains(self.timezone_offset)
        &&& platform_names().contains(self.platform@)
        &&& screen_buckets().contains(self.screen_bucket)
        &&& hardware_profiles().contains(self.hardware)
    }

    /// Generate a new random synthetic identity.
    pub fn generate() -> (r: Self)
        ensures
            r.in_anonymity_sets(),
    {
        let seed = random_seed();
        Self::from_seed(seed)
    }

    /// Create a synthetic identity from a seed: the noise seeds and the
    /// choices from each anonymity set are drawn from a ChaCha20 stream of
    /// that seed.
    pub fn from_seed(seed: [u8; 32]) -> (r: Self)
        ensures
            r.seed_view() == seed@,
            r.in_anonymity_sets(),
    {
        let mut rng = seeded_rng(seed);
        let canvas_seed = next_u64_from(&mut rng);
        let webgl_seed = next_u64_from(&mut rng);
        let audio_seed = next_u64_from(&mut rng);
        let timezones: [i32; 9] = [-480, -420, -360, -300, -240, 0, 60, 120, 180];
        assert(timezones@ =~= timezone_offsets());
        let timezone_offset = match choose_from(&mut rng, timezones.as_slice()) {
            Some(t) => t,
            None => 0,
        };
        let platforms: [&'static str; 3] = ["Win32", "Linux x86_64", "MacIntel"];
        let platform = match choose_from(&mut rng, platforms.as_slice()) {
            Some(p) => {
                proof {
                    let k = choose|k: int| 0 <= k < 3 && platforms@[k] == p;
                    assert(platform_names()[k] == p@);
                }
                owned(p)
            },
            None => owned("Linux x86_64"),
        };
        let screen_bucket = ScreenBucket::random(&mut rng);
        let hardware = HardwareProfile::random(&mut rng);
        SyntheticIdentity {
            seed,
            canvas_seed,
            webgl_seed,
            audio_seed,
            timezone_offset,
            platform,
            screen_bucket,
            hardware,
        }
    }

    /// Get the identity seed.
    pub fn seed(&self) -> (r: &[u8; 32])
        ensures
            r@ == self.seed_view(),
    {
        &self.seed
    }
}

/// Global fingerprint defense controller.
pub struct FingerprintDefense {
    identity: Arc<SyntheticIdentity>,
}

impl FingerprintDefense {
    /// The current identity.
    pub closed spec fn current(&self) -> SyntheticIdentity {
        *self.identity
    }

    /// Create a new fingerprint defense with a random identity.
    pub fn new() -> (r: Self)
        ensures
            r.current().in_anonymity_sets(),
    {
        FingerprintDefense { identity: Arc::new(SyntheticIdentity::generate()) }
    }

    /// Create with a specific identity.
    pub fn with_identity(identity: SyntheticIdentity) -> (r: Self)
        ensures
            r.current() == identity,
    {
        FingerprintDefense { identity: Arc::new(identity) }
    }

    /// Get the current synthetic identity.
    pub fn identity(&self) -> (r: &SyntheticIdentity)
        ensures
            *r == self.current(),
    {
        &self.identity
    }

    /// Rotate to the identity derived from `seed`.
    pub fn rotate_with_seed(&mut self, seed: [u8; 32])
        ensures
            final(self).current().seed_view() == seed@,
            final(self).current().in_anonymity_sets(),
    {
        self.identity = Arc::new(SyntheticIdentity::from_seed(seed));
    }

    /// Rotate to a new identity derived from a fresh random seed (call
    /// between requests).
    pub fn rotate(&mut self)
        ensures
            final(self).current().in_anonymity_sets(),
    {
        let seed = random_seed();
        self.rotate_with_seed(seed);
    }
}

impl Default for FingerprintDefense {
    fn default() -> (r: Self) {
        Self::new()
    }
}

} // verus!
