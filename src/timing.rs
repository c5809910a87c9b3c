//! Timing API fuzzing: reduced precision and deterministic jitter.

use crate::hashing::{hash_with_seed, seeded_hash};
use crate::random::random_u64;
use crate::text::str_views;
use vstd::prelude::*;

verus! {

/// Timing defense configuration.
#[derive(Debug, Clone)]
pub struct TimingDefense {
    /// Precision for Date.now() in milliseconds
    date_precision_ms: u64,
    /// Precision for performance.now() in milliseconds
    perf_precision_ms: u64,
    /// Maximum jitter to add
    max_jitter_ms: u64,
    /// Seed for deterministic jitter
    jitter_seed: u64,
}

impl TimingDefense {
    /// The seed of the jitter.
    pub closed spec fn seed(&self) -> u64 {
        self.jitter_seed
    }

    /// The precisions are 100 ms and the jitter stays below 10 ms.
    pub closed spec fn wf(&self) -> bool {
        self.date_precision_ms == 100 && self.perf_precision_ms == 100 && self.max_jitter_ms
            == 10
    }

    /// The jitter added for an input: below 10 ms, determined by the seed
    /// and the input.
    pub open spec fn jitter_of(&self, input: u64) -> u64 {
        (seeded_hash(self.seed(), input) % 10) as u64
    }

    /// Create a new timing defense: 100 ms precision, jitter below 10 ms.
    pub fn new(jitter_seed: u64) -> (r: Self)
        ensures
            r.seed() == jitter_seed,
            r.wf(),
    {
        TimingDefense {
            date_precision_ms: 100,
            perf_precision_ms: 100,
            max_jitter_ms: 10,
            jitter_seed,
        }
    }

    /// Precision of performance.now() in milliseconds.
    pub fn perf_precision_ms(&self) -> (r: u64)
        requires
            self.wf(),
        ensures
            r == 100,
    {
        self.perf_precision_ms
    }

    /// The largest jitter plus one, in milliseconds.
    pub fn max_jitter_ms(&self) -> (r: u64)
        requires
            self.wf(),
        ensures
            r == 10,
    {
        self.max_jitter_ms
    }

    /// Get fuzzed Date.now() value: rounded down to 100 ms, plus the
    /// jitter of the actual value, saturating.
    pub fn fuzz_date_now(&self, actual_ms: u64) -> (r: u64)
        requires
            self.wf(),
        ensures
            r == if (actual_ms / 100) * 100 + self.jitter_of(actual_ms) > u64::MAX {
                u64::MAX as int
            } else {
                (actual_ms / 100) * 100 + self.jitter_of(actual_ms)
            },
    {
        let reduced = (actual_ms / self.date_precision_ms) * self.date_precision_ms;
        let jitter = self.deterministic_jitter(actual_ms);
        reduced.saturating_add(jitter)
    }

    /// Generate deterministic jitter based on seed and input.
    pub fn deterministic_jitter(&self, input: u64) -> (r: u64)
        requires
            self.wf(),
        ensures
            r == self.jitter_of(input),
            r < 10,
    {
        let hash = hash_with_seed(self.jitter_seed, input);
        hash % self.max_jitter_ms
    }

    /// Get clamped setTimeout/setInterval minimum delay.
    pub fn minimum_timer_delay(&self) -> (r: u64)
        ensures
            r == 4,
    {
        4
    }

    /// Fuzz a timer callback delay: at least the minimum, plus its jitter.
    pub fn fuzz_timer_delay(&self, requested_ms: u64) -> (r: u64)
        requires
            self.wf(),
            requested_ms <= u64::MAX - 9,
        ensures
            r == (if requested_ms < 4 { 4 } else { requested_ms }) + self.jitter_of(
                if requested_ms < 4 { 4 } else { requested_ms },
            ),
    {
        let min = self.minimum_timer_delay();
        let delay = if requested_ms < min {
            min
        } else {
            requested_ms
        };
        let jitter = self.deterministic_jitter(delay);
        delay + jitter
    }
}

impl Default for TimingDefense {
    fn default() -> (r: Self) {
        Self::new(random_u64())
    }
}

/// The timing APIs that are fuzzed.
pub open spec fn fuzzed_timing_api_names() -> Seq<Seq<char>> {
    seq![
        "Date.now"@,
        "Date.prototype.getTime"@,
        "Date.prototype.valueOf"@,
        "performance.now"@,
        "performance.timeOrigin"@,
        "performance.timing"@,
        "requestAnimationFrame"@,
        "setTimeout"@,
        "setInterval"@,
    ]
}

/// The timing APIs that are disabled.
pub open spec fn blocked_timing_api_names() -> Seq<Seq<char>> {
    seq![
        "SharedArrayBuffer"@,
        "Atomics"@,
        "performance.measureUserAgentSpecificMemory"@,
        "crossOriginIsolated"@,
    ]
}

/// APIs that should be modified for timing defense.
pub fn timing_apis_to_fuzz() -> (r: Vec<&'static str>)
    ensures
        str_views(r@) == fuzzed_timing_api_names(),
{
    let r = vec![
        "Date.now",
        "Date.prototype.getTime",
        "Date.prototype.valueOf",
        "performance.now",
        "performance.timeOrigin",
        "performance.timing",
        "requestAnimationFrame",
        "setTimeout",
        "setInterval",
    ];
    assert(str_views(r@) =~= fuzzed_timing_api_names());
    r
}

/// APIs that should be completely disabled (high-resolution timers).
pub fn timing_apis_to_block() -> (r: Vec<&'static str>)
    ensures
        str_views(r@) == blocked_timing_api_names(),
{
    let r = vec![
        "SharedArrayBuffer",
        "Atomics",
        "performance.measureUserAgentSpecificMemory",
        "crossOriginIsolated",
    ];
    assert(str_views(r@) =~= blocked_timing_api_names());
    r
}

/// Resource timing is disabled.
pub fn block_resource_timing() -> (r: bool)
    ensures
        r,
{
    true
}

/// Navigation timing returns fuzzed values.
pub fn fuzz_navigation_timing() -> (r: bool)
    ensures
        r,
{
    true
}

} // verus!
