//! Screen and window size normalization: sizes come from a few common
//! buckets.

use crate::random::{index_below_from, random_below};
use crate::text::owned;
use rand_chacha::ChaCha20Rng;
use vstd::prelude::*;

verus! {

/// A common screen configuration.
#[derive(Debug, Clone, Copy, PartialEq, Eq, Structural)]
pub struct ScreenBucket {
    /// Screen width
    pub width: u32,
    /// Screen height
    pub height: u32,
    /// Color depth
    pub color_depth: u8,
    /// Device pixel ratio
    pub device_pixel_ratio: u8,
}

/// The buckets, most common first.
pub open spec fn screen_buckets() -> Seq<ScreenBucket> {
    seq![
        ScreenBucket { width: 1920, height: 1080, color_depth: 24, device_pixel_ratio: 1 },
        ScreenBucket { width: 1366, height: 768, color_depth: 24, device_pixel_ratio: 1 },
        ScreenBucket { width: 1440, height: 900, color_depth: 24, device_pixel_ratio: 1 },
        ScreenBucket { width: 1536, height: 864, color_depth: 24, device_pixel_ratio: 1 },
        ScreenBucket { width: 1280, height: 800, color_depth: 24, device_pixel_ratio: 2 },
    ]
}

/// The distance between a bucket and actual dimensions: the sum of the
/// absolute differences of width and height.
pub open spec fn distance(b: ScreenBucket, w: u32, h: u32) -> int {
    let dw = b.width as int - w as int;
    let dh = b.height as int - h as int;
    (if dw < 0 { -dw } else { dw }) + (if dh < 0 { -dh } else { dh })
}

/// Whether `k` is the first bucket of least distance to `w` by `h`.
pub open spec fn is_nearest_index(k: int, w: u32, h: u32) -> bool {
    &&& 0 <= k < screen_buckets().len()
    &&& forall|j: int|
        0 <= j < screen_buckets().len() ==> distance(screen_buckets()[k], w, h) <= distance(
            #[trigger] screen_buckets()[j],
            w,
            h,
        )
    &&& forall|j: int|
        0 <= j < k ==> distance(screen_buckets()[k], w, h) < distance(
            #[trigger] screen_buckets()[j],
            w,
            h,
        )
}

fn bucket_distance(b: ScreenBucket, w: u32, h: u32) -> (r: i64)
    ensures
        r == distance(b, w, h),
{
    let dw = b.width as i64 - w as i64;
    let dh = b.height as i64 - h as i64;
    let aw = if dw < 0 {
        -dw
    } else {
        dw
    };
    let ah = if dh < 0 {
        -dh
    } else {
        dh
    };
    aw + ah
}

impl ScreenBucket {
    /// Available screen buckets.
    pub fn buckets() -> (r: Vec<ScreenBucket>)
        ensures
            r@ == screen_buckets(),
    {
        let r = vec![
            ScreenBucket { width: 1920, height: 1080, color_depth: 24, device_pixel_ratio: 1 },
            ScreenBucket { width: 1366, height: 768, color_depth: 24, device_pixel_ratio: 1 },
            ScreenBucket { width: 1440, height: 900, color_depth: 24, device_pixel_ratio: 1 },
            ScreenBucket { width: 1536, height: 864, color_depth: 24, device_pixel_ratio: 1 },
            ScreenBucket { width: 1280, height: 800, color_depth: 24, device_pixel_ratio: 2 },
        ];
        assert(r@ =~= screen_buckets());
        r
    }

    /// Select a random screen bucket.
    pub fn random(rng: &mut ChaCha20Rng) -> (r: Self)
        ensures
            screen_buckets().contains(r),
    {
        let buckets = Self::buckets();
        let idx = index_below_from(rng, buckets.len());
        let r = buckets[idx];
        assert(screen_buckets()[idx as int] == r);
        r
    }

    /// Get the nearest bucket for actual dimensions: the first one of least
    /// distance.
    pub fn nearest(actual_width: u32, actual_height: u32) -> (r: Self)
        ensures
            exists|k: int| is_nearest_index(k, actual_width, actual_height) && r == screen_buckets()[k],
    {
        let buckets = Self::buckets();
        let mut best: usize = 0;
        let mut best_distance = bucket_distance(buckets[0], actual_width, actual_height);
        let mut i: usize = 1;
        while i < buckets.len()
            invariant
                buckets@ == screen_buckets(),
                1 <= i <= buckets@.len(),
                best < i,
                best_distance == distance(buckets@[best as int], actual_width, actual_height),
                forall|j: int|
                    0 <= j < i ==> best_distance <= distance(
                        #[trigger] buckets@[j],
                        actual_width,
                        actual_height,
                    ),
                forall|j: int|
                    0 <= j < best ==> best_distance < distance(
                        #[trigger] buckets@[j],
                        actual_width,
                        actual_height,
                    ),
            decreases buckets@.len() - i,
        {
            let d = bucket_distance(buckets[i], actual_width, actual_height);
            if d < best_distance {
                best = i;
                best_distance = d;
            }
            i += 1;
        }
        assert(is_nearest_index(best as int, actual_width, actual_height));
        buckets[best]
    }
}

/// Spoofed screen properties.
#[derive(Debug, Clone)]
pub struct ScreenProperties {
    /// Screen width
    pub width: u32,
    /// Screen height
    pub height: u32,
    /// Available width
    pub avail_width: u32,
    /// Available height
    pub avail_height: u32,
    /// Color depth
    pub color_depth: u8,
    /// Pixel depth
    pub pixel_depth: u8,
    /// Orientation type
    pub orientation_type: String,
    /// Orientation angle
    pub orientation_angle: u16,
}

/// Screen defense configuration.
#[derive(Debug, Clone)]
pub struct ScreenDefense {
    /// Selected screen bucket
    bucket: ScreenBucket,
}

impl ScreenDefense {
    /// The bucket reported.
    pub closed spec fn bucket(&self) -> ScreenBucket {
        self.bucket
    }

    /// The bucket leaves room for the taskbar.
    pub open spec fn wf(&self) -> bool {
        self.bucket().height >= 40
    }

    /// Create a new screen defense with a specific bucket, which must be at
    /// least 40 pixels high.
    pub fn new(bucket: ScreenBucket) -> (r: Self)
        requires
            bucket.height >= 40,
        ensures
            r.bucket() == bucket,
            r.wf(),
    {
        ScreenDefense { bucket }
    }

    /// Create with a random bucket.
    pub fn random() -> (r: Self)
        ensures
            screen_buckets().contains(r.bucket()),
            r.wf(),
    {
        let buckets = ScreenBucket::buckets();
        let idx = random_below(buckets.len());
        let bucket = buckets[idx];
        assert(screen_buckets()[idx as int] == bucket);
        ScreenDefense { bucket }
    }

    /// Get spoofed screen width.
    pub fn screen_width(&self) -> (r: u32)
        ensures
            r == self.bucket().width,
    {
        self.bucket.width
    }

    /// Get spoofed screen height.
    pub fn screen_height(&self) -> (r: u32)
        ensures
            r == self.bucket().height,
    {
        self.bucket.height
    }

    /// Get spoofed available width (same as screen).
    pub fn avail_width(&self) -> (r: u32)
        ensures
            r == self.bucket().width,
    {
        self.bucket.width
    }

    /// Get spoofed available height: 40 pixels less, for a taskbar.
    pub fn avail_height(&self) -> (r: u32)
        requires
            self.wf(),
        ensures
            r == self.bucket().height - 40,
    {
        self.bucket.height - 40
    }

    /// Get color depth.
    pub fn color_depth(&self) -> (r: u8)
        ensures
            r == self.bucket().color_depth,
    {
        self.bucket.color_depth
    }

    /// Get pixel depth (same as color depth).
    pub fn pixel_depth(&self) -> (r: u8)
        ensures
            r == self.bucket().color_depth,
    {
        self.bucket.color_depth
    }

    /// Get the device pixel ratio of the bucket.
    pub fn device_pixel_ratio_value(&self) -> (r: u8)
        ensures
            r == self.bucket().device_pixel_ratio,
    {
        self.bucket.device_pixel_ratio
    }

    /// Get inner window width (letterboxed to match screen).
    pub fn inner_width(&self) -> (r: u32)
        ensures
            r == self.bucket().width,
    {
        self.bucket.width
    }

    /// Get inner window height: 100 pixels less, for the browser chrome;
    /// the bucket must be at least 100 pixels high.
    pub fn inner_height(&self) -> (r: u32)
        requires
            self.bucket().height >= 100,
        ensures
            r == self.bucket().height - 100,
    {
        self.bucket.height - 100
    }

    /// Get outer window width.
    pub fn outer_width(&self) -> (r: u32)
        ensures
            r == self.bucket().width,
    {
        self.bucket.width
    }

    /// Get outer window height.
    pub fn outer_height(&self) -> (r: u32)
        ensures
            r == self.bucket().height,
    {
        self.bucket.height
    }

    /// Get screen X position.
    pub fn screen_x(&self) -> (r: i32)
        ensures
            r == 0,
    {
        0
    }

    /// Get screen Y position.
    pub fn screen_y(&self) -> (r: i32)
        ensures
            r == 0,
    {
        0
    }

    /// Get all screen properties as a struct.
    pub fn get_screen_properties(&self) -> (r: ScreenProperties)
        requires
            self.wf(),
        ensures
            r.width == self.bucket().width,
            r.height == self.bucket().height,
            r.avail_width == self.bucket().width,
            r.avail_height == self.bucket().height - 40,
            r.color_depth == self.bucket().color_depth,
            r.pixel_depth == self.bucket().color_depth,
            r.orientation_type@ == "landscape-primary"@,
            r.orientation_angle == 0,
    {
        ScreenProperties {
            width: self.screen_width(),
            height: self.screen_height(),
            avail_width: self.avail_width(),
            avail_height: self.avail_height(),
            color_depth: self.color_depth(),
            pixel_depth: self.pixel_depth(),
            orientation_type: owned("landscape-primary"),
            orientation_angle: 0,
        }
    }
}

} // verus!
