//! WebGL fingerprinting defense: generic GPU strings from a few common
//! profiles, and deterministic noise on read-back pixels.

use crate::hashing::{hash_with_seed, seeded_hash};
use crate::text::{owned, str_views, string_views};
use vstd::prelude::*;

verus! {

/// WebGL profile representing a common configuration.
#[derive(Debug)]
pub struct WebGLProfile {
    /// Renderer string
    pub renderer: &'static str,
    /// Vendor string
    pub vendor: &'static str,
    /// Unmasked renderer
    pub unmasked_renderer: &'static str,
    /// Unmasked vendor
    pub unmasked_vendor: &'static str,
    /// Max texture size
    pub max_texture_size: i32,
    /// Max viewport dimensions
    pub max_viewport_dims: (i32, i32),
    /// Max vertex attribs
    pub max_vertex_attribs: i32,
    /// Max vertex uniform vectors
    pub max_vertex_uniform_vectors: i32,
    /// Max fragment uniform vectors
    pub max_fragment_uniform_vectors: i32,
    /// Max varying vectors
    pub max_varying_vectors: i32,
    /// Supported extensions
    pub extensions: Vec<&'static str>,
}

/// The unmasked renderer of each profile.
pub open spec fn profile_unmasked_renderer(i: int) -> Seq<char> {
    if i == 0 {
        "ANGLE (Intel, Intel(R) UHD Graphics 620 Direct3D11 vs_5_0 ps_5_0)"@
    } else if i == 1 {
        "ANGLE (NVIDIA, NVIDIA GeForce GTX 1060 Direct3D11 vs_5_0 ps_5_0)"@
    } else {
        "Mesa DRI Intel(R) UHD Graphics 620 (KBL GT2)"@
    }
}

/// The unmasked vendor of each profile.
pub open spec fn profile_unmasked_vendor(i: int) -> Seq<char> {
    if i == 0 {
        "Google Inc. (Intel)"@
    } else if i == 1 {
        "Google Inc. (NVIDIA)"@
    } else {
        "Intel Open Source Technology Center"@
    }
}

/// The extensions every Windows profile has.
pub open spec fn common_extension_names() -> Seq<Seq<char>> {
    seq![
        "ANGLE_instanced_arrays"@,
        "EXT_blend_minmax"@,
        "EXT_color_buffer_half_float"@,
        "EXT_float_blend"@,
        "EXT_frag_depth"@,
        "EXT_shader_texture_lod"@,
        "EXT_texture_filter_anisotropic"@,
        "OES_element_index_uint"@,
        "OES_standard_derivatives"@,
        "OES_texture_float"@,
        "OES_texture_float_linear"@,
        "OES_texture_half_float"@,
        "OES_texture_half_float_linear"@,
        "OES_vertex_array_object"@,
        "WEBGL_color_buffer_float"@,
        "WEBGL_compressed_texture_s3tc"@,
        "WEBGL_debug_renderer_info"@,
    ]
}

/// The extensions of the profile at position `i`.
pub open spec fn profile_extension_names(i: int) -> Seq<Seq<char>> {
    if i == 0 {
        common_extension_names() + seq![
            "WEBGL_debug_shaders"@,
            "WEBGL_depth_texture"@,
            "WEBGL_draw_buffers"@,
            "WEBGL_lose_context"@,
        ]
    } else if i == 1 {
        common_extension_names() + seq![
            "WEBGL_depth_texture"@,
            "WEBGL_draw_buffers"@,
            "WEBGL_lose_context"@,
        ]
    } else {
        seq![
            "ANGLE_instanced_arrays"@,
            "EXT_blend_minmax"@,
            "EXT_frag_depth"@,
            "EXT_shader_texture_lod"@,
            "EXT_texture_filter_anisotropic"@,
            "OES_element_index_uint"@,
            "OES_standard_derivatives"@,
            "OES_texture_float"@,
            "OES_texture_float_linear"@,
            "OES_texture_half_float"@,
            "OES_texture_half_float_linear"@,
            "OES_vertex_array_object"@,
            "WEBGL_depth_texture"@,
            "WEBGL_draw_buffers"@,
            "WEBGL_lose_context"@,
        ]
    }
}

/// Every reported extension is an extension of every profile.
pub proof fn lemma_reported_in_every_profile(i: int)
    requires
        0 <= i < 3,
    ensures
        forall|k: int|
            0 <= k < reported_extensions().len() ==> profile_extension_names(i).contains(
                #[trigger] reported_extensions()[k],
            ),
{
    let p = profile_extension_names(i);
    let r = reported_extensions();
    if i == 2 {
        assert(p[7] == r[0] && p[9] == r[1] && p[6] == r[2] && p[5] == r[3] && p[12] == r[4]
            && p[14] == r[5]);
    } else if i == 1 {
        assert(p[9] == r[0] && p[11] == r[1] && p[8] == r[2] && p[7] == r[3] && p[17] == r[4]
            && p[19] == r[5]);
    } else {
        assert(p[9] == r[0] && p[11] == r[1] && p[8] == r[2] && p[7] == r[3] && p[18] == r[4]
            && p[20] == r[5]);
    }
    assert forall|k: int| 0 <= k < r.len() implies p.contains(#[trigger] r[k]) by {
        if k == 0 {
        } else if k == 1 {
        } else if k == 2 {
        } else if k == 3 {
        } else if k == 4 {
        } else {
        }
    }
}

/// Whether a profile is the one at position `i` of the three profiles.
pub open spec fn is_webgl_profile(p: WebGLProfile, i: int) -> bool {
    &&& 0 <= i < 3
    &&& p.renderer@ == "WebKit WebGL"@
    &&& p.vendor@ == "WebKit"@
    &&& p.unmasked_renderer@ == profile_unmasked_renderer(i)
    &&& p.unmasked_vendor@ == profile_unmasked_vendor(i)
    &&& p.max_texture_size == 16384
    &&& p.max_viewport_dims == (if i == 1 { (32767i32, 32767i32) } else { (16384i32, 16384i32) })
    &&& p.max_vertex_attribs == 16
    &&& p.max_vertex_uniform_vectors == 4096
    &&& p.max_fragment_uniform_vectors == 1024
    &&& p.max_varying_vectors == (if i == 0 { 30i32 } else { 31i32 })
    &&& str_views(p.extensions@) == profile_extension_names(i)
}

fn common_extensions() -> (r: Vec<&'static str>)
    ensures
        str_views(r@) == common_extension_names(),
{
    let r = vec![
        "ANGLE_instanced_arrays",
        "EXT_blend_minmax",
        "EXT_color_buffer_half_float",
        "EXT_float_blend",
        "EXT_frag_depth",
        "EXT_shader_texture_lod",
        "EXT_texture_filter_anisotropic",
        "OES_element_index_uint",
        "OES_standard_derivatives",
        "OES_texture_float",
        "OES_texture_float_linear",
        "OES_texture_half_float",
        "OES_texture_half_float_linear",
        "OES_vertex_array_object",
        "WEBGL_color_buffer_float",
        "WEBGL_compressed_texture_s3tc",
        "WEBGL_debug_renderer_info",
    ];
    assert(str_views(r@) =~= common_extension_names());
    r
}

/// The profile at position `i`.
fn webgl_profile(i: usize) -> (r: WebGLProfile)
    requires
        i < 3,
    ensures
        is_webgl_profile(r, i as int),
{
    if i == 0 {
        let mut extensions = common_extensions();
        extensions.push("WEBGL_debug_shaders");
        extensions.push("WEBGL_depth_texture");
        extensions.push("WEBGL_draw_buffers");
        extensions.push("WEBGL_lose_context");
        assert(str_views(extensions@) =~= profile_extension_names(0));
        WebGLProfile {
            renderer: "WebKit WebGL",
            vendor: "WebKit",
            unmasked_renderer: "ANGLE (Intel, Intel(R) UHD Graphics 620 Direct3D11 vs_5_0 ps_5_0)",
            unmasked_vendor: "Google Inc. (Intel)",
            max_texture_size: 16384,
            max_viewport_dims: (16384, 16384),
            max_vertex_attribs: 16,
            max_vertex_uniform_vectors: 4096,
            max_fragment_uniform_vectors: 1024,
            max_varying_vectors: 30,
            extensions,
        }
    } else if i == 1 {
        let mut extensions = common_extensions();
        extensions.push("WEBGL_depth_texture");
        extensions.push("WEBGL_draw_buffers");
        extensions.push("WEBGL_lose_context");
        assert(str_views(extensions@) =~= profile_extension_names(1));
        WebGLProfile {
            renderer: "WebKit WebGL",
            vendor: "WebKit",
            unmasked_renderer: "ANGLE (NVIDIA, NVIDIA GeForce GTX 1060 Direct3D11 vs_5_0 ps_5_0)",
            unmasked_vendor: "Google Inc. (NVIDIA)",
            max_texture_size: 16384,
            max_viewport_dims: (32767, 32767),
            max_vertex_attribs: 16,
            max_vertex_uniform_vectors: 4096,
            max_fragment_uniform_vectors: 1024,
            max_varying_vectors: 31,
            extensions,
        }
    } else {
        let extensions = vec![
            "ANGLE_instanced_arrays",
            "EXT_blend_minmax",
            "EXT_frag_depth",
            "EXT_shader_texture_lod",
            "EXT_texture_filter_anisotropic",
            "OES_element_index_uint",
            "OES_standard_derivatives",
            "OES_texture_float",
            "OES_texture_float_linear",
            "OES_texture_half_float",
            "OES_texture_half_float_linear",
            "OES_vertex_array_object",
            "WEBGL_depth_texture",
            "WEBGL_draw_buffers",
            "WEBGL_lose_context",
        ];
        assert(str_views(extensions@) =~= profile_extension_names(2));
        WebGLProfile {
            renderer: "WebKit WebGL",
            vendor: "WebKit",
            unmasked_renderer: "Mesa DRI Intel(R) UHD Graphics 620 (KBL GT2)",
            unmasked_vendor: "Intel Open Source Technology Center",
            max_texture_size: 16384,
            max_viewport_dims: (16384, 16384),
            max_vertex_attribs: 16,
            max_vertex_uniform_vectors: 4096,
            max_fragment_uniform_vectors: 1024,
            max_varying_vectors: 31,
            extensions,
        }
    }
}

/// The extensions reported, a subset that narrows the fingerprint.
pub open spec fn reported_extensions() -> Seq<Seq<char>> {
    seq![
        "OES_texture_float"@,
        "OES_texture_half_float"@,
        "OES_standard_derivatives"@,
        "OES_element_index_uint"@,
        "WEBGL_depth_texture"@,
        "WEBGL_lose_context"@,
    ]
}

/// A byte with noise added, kept within 0..=255.
pub open spec fn noised_byte(b: u8, noise: int) -> u8 {
    let v = b as int + noise;
    if v < 0 {
        0u8
    } else if v > 255 {
        255u8
    } else {
        v as u8
    }
}

/// WebGL defense configuration.
#[derive(Debug)]
pub struct WebGLDefense {
    /// Seed for this identity
    seed: u64,
    /// Selected profile
    profile: WebGLProfile,
}

impl WebGLDefense {
    /// The seed of the noise.
    pub closed spec fn seed(&self) -> u64 {
        self.seed
    }

    /// The profile reported.
    pub closed spec fn profile(&self) -> WebGLProfile {
        self.profile
    }

    /// Create a new WebGL defense: the profile is picked by the seed
    /// modulo the number of profiles.
    pub fn new(seed: u64) -> (r: Self)
        ensures
            r.seed() == seed,
            is_webgl_profile(r.profile(), (seed % 3) as int),
    {
        let profile_idx = (seed % 3) as usize;
        WebGLDefense { seed, profile: webgl_profile(profile_idx) }
    }

    /// Get the spoofed renderer string.
    pub fn renderer(&self) -> (r: &str)
        ensures
            r@ == self.profile().renderer@,
    {
        self.profile.renderer
    }

    /// Get the spoofed vendor string.
    pub fn vendor(&self) -> (r: &str)
        ensures
            r@ == self.profile().vendor@,
    {
        self.profile.vendor
    }

    /// Get the unmasked renderer (if debug info is "allowed").
    pub fn unmasked_renderer(&self) -> (r: &str)
        ensures
            r@ == self.profile().unmasked_renderer@,
    {
        self.profile.unmasked_renderer
    }

    /// Get the unmasked vendor.
    pub fn unmasked_vendor(&self) -> (r: &str)
        ensures
            r@ == self.profile().unmasked_vendor@,
    {
        self.profile.unmasked_vendor
    }

    /// The profile's limits: texture size, viewport, vertex attributes,
    /// vertex and fragment uniform vectors, varying vectors.
    pub fn limits(&self) -> (r: (i32, (i32, i32), i32, i32, i32, i32))
        ensures
            r == (
                self.profile().max_texture_size,
                self.profile().max_viewport_dims,
                self.profile().max_vertex_attribs,
                self.profile().max_vertex_uniform_vectors,
                self.profile().max_fragment_uniform_vectors,
                self.profile().max_varying_vectors,
            ),
    {
        (
            self.profile.max_texture_size,
            self.profile.max_viewport_dims,
            self.profile.max_vertex_attribs,
            self.profile.max_vertex_uniform_vectors,
            self.profile.max_fragment_uniform_vectors,
            self.profile.max_varying_vectors,
        )
    }

    /// Get supported extensions.
    pub fn supported_extensions(&self) -> (r: Vec<String>)
        ensures
            string_views(r@) == reported_extensions(),
            forall|i: int, k: int|
                0 <= i < 3 && 0 <= k < r@.len() ==> #[trigger] profile_extension_names(i).contains(
                    #[trigger] string_views(r@)[k],
                ),
    {
        let r = vec![
            owned("OES_texture_float"),
            owned("OES_texture_half_float"),
            owned("OES_standard_derivatives"),
            owned("OES_element_index_uint"),
            owned("WEBGL_depth_texture"),
            owned("WEBGL_lose_context"),
        ];
        assert(string_views(r@) =~= reported_extensions());
        proof {
            assert forall|i: int, k: int|
                0 <= i < 3 && 0 <= k < r@.len() implies #[trigger] profile_extension_names(
                i,
            ).contains(#[trigger] string_views(r@)[k]) by {
                lemma_reported_in_every_profile(i);
                assert(string_views(r@)[k] == reported_extensions()[k]);
            }
        }
        r
    }

    /// Generate deterministic noise for readPixels: each byte moves by -1,
    /// 0, 1 or 2, chosen by the seed and its position, within 0..=255.
    pub fn apply_pixel_noise(&self, data: &mut [u8])
        ensures
            final(data)@.len() == old(data)@.len(),
            forall|i: int|
                0 <= i < old(data)@.len() ==> #[trigger] final(data)@[i] == noised_byte(
                    old(data)@[i],
                    (seeded_hash(self.seed(), i as u64) % 4) as int - 1,
                ),
    {
        let n = data.len();
        let mut i: usize = 0;
        while i < n
            invariant
                n == data@.len(),
                n == old(data)@.len(),
                i <= n,
                forall|j: int|
                    0 <= j < i ==> #[trigger] data@[j] == noised_byte(
                        old(data)@[j],
                        (seeded_hash(self.seed(), j as u64) % 4) as int - 1,
                    ),
                forall|j: int| i <= j < n ==> #[trigger] data@[j] == old(data)@[j],
            decreases n - i,
        {
            let hash = hash_with_seed(self.seed, i as u64);
            let noise: i16 = (hash % 4) as i16 - 1;
            let v: i16 = data[i] as i16 + noise;
            let b: u8 = if v < 0 {
                0
            } else if v > 255 {
                255
            } else {
                v as u8
            };
            data[i] = b;
            i += 1;
        }
    }
}

} // verus!
