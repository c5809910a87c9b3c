//! Traffic shaping against traffic analysis: randomized jitter around each
//! request, padding lengths, and fixed size buckets.

use crate::random::{random_bytes, random_u64_between, random_usize_between};
use vstd::prelude::*;
use vstd::slice::slice_to_vec;

verus! {

/// Traffic shaper that adds padding and delays.
pub struct TrafficShaper {
    min_padding: usize,
    max_padding: usize,
    min_jitter_ms: u64,
    max_jitter_ms: u64,
}

impl TrafficShaper {
    /// Smallest padding length.
    pub closed spec fn min_padding(&self) -> usize {
        self.min_padding
    }

    /// Largest padding length.
    pub closed spec fn max_padding(&self) -> usize {
        self.max_padding
    }

    /// Shortest jitter delay, in milliseconds.
    pub closed spec fn min_jitter(&self) -> u64 {
        self.min_jitter_ms
    }

    /// Longest jitter delay, in milliseconds.
    pub closed spec fn max_jitter(&self) -> u64 {
        self.max_jitter_ms
    }

    /// Both ranges are non-empty.
    pub open spec fn wf(&self) -> bool {
        self.min_padding() <= self.max_padding() && self.min_jitter() <= self.max_jitter()
    }

    /// A jitter can be drawn: the jitter range ends at zero (no draw is
    /// made) or is non-empty.
    pub open spec fn jitter_drawable(&self) -> bool {
        self.max_jitter() == 0 || self.min_jitter() <= self.max_jitter()
    }

    /// Create a new traffic shaper over the padding range
    /// `min_padding..=max_padding` and the jitter range
    /// `min_jitter_ms..=max_jitter_ms`. A draw from an empty range is
    /// refused later, where it would be made.
    pub fn new(min_padding: usize, max_padding: usize, min_jitter_ms: u64, max_jitter_ms: u64) -> (r:
        Self)
        ensures
            r.min_padding() == min_padding,
            r.max_padding() == max_padding,
            r.min_jitter() == min_jitter_ms,
            r.max_jitter() == max_jitter_ms,
    {
        TrafficShaper { min_padding, max_padding, min_jitter_ms, max_jitter_ms }
    }

    /// Whether both ranges are non-empty.
    pub fn ranges_valid(&self) -> (r: bool)
        ensures
            r == self.wf(),
    {
        self.min_padding <= self.max_padding && self.min_jitter_ms <= self.max_jitter_ms
    }

    /// Whether a padding length can be drawn.
    pub fn padding_valid(&self) -> (r: bool)
        ensures
            r == (self.min_padding() <= self.max_padding()),
    {
        self.min_padding <= self.max_padding
    }

    /// Whether a jitter can be drawn.
    pub fn jitter_valid(&self) -> (r: bool)
        ensures
            r == self.jitter_drawable(),
    {
        self.max_jitter_ms == 0 || self.min_jitter_ms <= self.max_jitter_ms
    }

    /// The request body as sent: padding is applied at the transport layer,
    /// so the application payload is unchanged.
    pub fn pad_request(&self, body: &[u8]) -> (r: Vec<u8>)
        ensures
            r@ == body@,
    {
        slice_to_vec(body)
    }

    /// How much padding the transport layer adds: a length drawn uniformly
    /// from the padding range.
    pub fn padding_length(&self) -> (r: usize)
        requires
            self.min_padding() <= self.max_padding(),
        ensures
            self.min_padding() <= r <= self.max_padding(),
    {
        random_usize_between(self.min_padding, self.max_padding)
    }

    /// The delay of one jitter given the drawn value: none when the jitter
    /// range ends at zero or the draw is zero, otherwise the draw.
    pub fn jitter_for_draw(&self, draw: u64) -> (r: Option<u64>)
        ensures
            r == (if self.max_jitter() == 0 || draw == 0 {
                None::<u64>
            } else {
                Some(draw)
            }),
    {
        if self.max_jitter_ms == 0 || draw == 0 {
            None
        } else {
            Some(draw)
        }
    }

    /// The delay of one jitter: none when the jitter range ends at zero,
    /// otherwise a delay drawn uniformly from the range, and none when that
    /// draw is zero.
    pub fn jitter_delay(&self) -> (r: Option<u64>)
        requires
            self.jitter_drawable(),
        ensures
            self.max_jitter() == 0 ==> r is None,
            self.max_jitter() > 0 && self.min_jitter() > 0 ==> r is Some,
            r matches Some(ms) ==> self.min_jitter() <= ms <= self.max_jitter() && ms > 0,
    {
        if self.max_jitter_ms == 0 {
            return None;
        }
        let draw = random_u64_between(self.min_jitter_ms, self.max_jitter_ms);
        self.jitter_for_draw(draw)
    }
}

/// Padding generator for transport cells.
pub struct PaddingGenerator {
    /// Target size for padded cells
    target_size: usize,
}

impl PaddingGenerator {
    /// The size that padded data reaches.
    pub closed spec fn target(&self) -> usize {
        self.target_size
    }

    /// Create a new padding generator.
    pub fn new(target_size: usize) -> (r: Self)
        ensures
            r.target() == target_size,
    {
        PaddingGenerator { target_size }
    }

    /// Generate random padding bytes that bring `current_size` up to the
    /// target, and none when it is already reached.
    pub fn generate(&self, current_size: usize) -> (r: Vec<u8>)
        ensures
            current_size >= self.target() ==> r@.len() == 0,
            current_size < self.target() ==> r@.len() == self.target() - current_size,
    {
        if current_size >= self.target_size {
            return Vec::new();
        }
        random_bytes(self.target_size - current_size)
    }

    /// Pad data to the target size: the data followed by random bytes.
    pub fn pad(&self, data: &[u8]) -> (r: Vec<u8>)
        ensures
            r@.len() == if data@.len() >= self.target() {
                data@.len() as int
            } else {
                self.target() as int
            },
            r@.subrange(0, data@.len() as int) == data@,
    {
        let mut result = slice_to_vec(data);
        let mut padding = self.generate(data.len());
        result.append(&mut padding);
        assert(result@.subrange(0, data@.len() as int) =~= data@);
        result
    }
}

impl Default for PaddingGenerator {
    fn default() -> (r: Self) {
        Self::new(512)
    }
}

/// The bucket of a size: the smallest of 512, 1024, ..., 65536 that holds
/// it, and beyond the largest the next multiple of 65536.
pub open spec fn bucket_of(n: int) -> int {
    if n <= 512 {
        512
    } else if n <= 1024 {
        1024
    } else if n <= 2048 {
        2048
    } else if n <= 4096 {
        4096
    } else if n <= 8192 {
        8192
    } else if n <= 16384 {
        16384
    } else if n <= 32768 {
        32768
    } else if n <= 65536 {
        65536
    } else {
        ((n + 65535) / 65536) * 65536
    }
}

/// Normalize packet sizes to fixed buckets, which limits what sizes reveal.
pub fn normalize_size(size: usize) -> (r: usize)
    requires
        size <= usize::MAX - 65535,
    ensures
        r == bucket_of(size as int),
{
    if size <= 512 {
        512
    } else if size <= 1024 {
        1024
    } else if size <= 2048 {
        2048
    } else if size <= 4096 {
        4096
    } else if size <= 8192 {
        8192
    } else if size <= 16384 {
        16384
    } else if size <= 32768 {
        32768
    } else if size <= 65536 {
        65536
    } else {
        let q = size / 65536;
        let m = size % 65536;
        proof {
            lemma_bucket_round_up(size as int);
        }
        if m == 0 {
            size
        } else {
            (q + 1) * 65536
        }
    }
}

proof fn lemma_bucket_round_up(n: int)
    requires
        n > 65536,
    ensures
        n % 65536 == 0 ==> bucket_of(n) == n,
        n % 65536 != 0 ==> bucket_of(n) == (n / 65536 + 1) * 65536,
{
    let q = n / 65536;
    let m = n % 65536;
    assert(n == q * 65536 + m);
    assert((n + 65535) / 65536 == if m == 0 { q } else { q + 1 });
}

/// A bucket holds the size it is given, and a bucket is its own bucket.
pub proof fn lemma_bucket_laws(n: int)
    requires
        n >= 0,
    ensures
        bucket_of(n) >= n,
        bucket_of(bucket_of(n)) == bucket_of(n),
{
    if n > 65536 {
        let q = (n + 65535) / 65536;
        assert(q * 65536 >= n);
        assert(q >= 2);
        assert((q * 65536 + 65535) / 65536 == q);
    }
}

} // verus!
