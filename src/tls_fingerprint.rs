//! TLS and HTTP/2 fingerprint normalization: one compiled-in handshake
//! profile, identical for every request, matching the target browser.

use crate::network::NetworkError;
use crate::text::owned;
use vstd::prelude::*;

verus! {

/// TLS version.
#[derive(Debug, Clone, Copy, PartialEq, Eq, Structural)]
pub enum TlsVersion {
    /// TLS 1.2
    Tls12,
    /// TLS 1.3
    Tls13,
}

/// The protocol version number of a TLS version.
pub open spec fn version_number(v: TlsVersion) -> nat {
    match v {
        TlsVersion::Tls12 => 0x0303,
        TlsVersion::Tls13 => 0x0304,
    }
}

/// TLS configuration for a normalized fingerprint.
#[derive(Debug)]
pub struct TlsConfig {
    /// Cipher suites in specific order
    pub cipher_suites: Vec<u16>,
    /// TLS extensions in specific order
    pub extensions: Vec<u16>,
    /// Supported groups (curves)
    pub supported_groups: Vec<u16>,
    /// Signature algorithms
    pub signature_algorithms: Vec<u16>,
    /// ALPN protocols
    pub alpn_protocols: Vec<String>,
    /// Minimum TLS version
    pub min_version: TlsVersion,
    /// Maximum TLS version
    pub max_version: TlsVersion,
}

/// The big-endian 16-bit number at position `i`.
pub open spec fn be16(b: Seq<u8>, i: int) -> int {
    b[i] as int * 256 + b[i + 1] as int
}

/// A byte string read as big-endian 16-bit numbers.
pub open spec fn u16_list(s: Seq<u8>) -> Seq<u16> {
    Seq::new(s.len() / 2, |k: int| be16(s, 2 * k) as u16)
}

/// The extensions of an extensions block, as type and data, in order.
pub open spec fn parse_extensions(r: Seq<u8>) -> Option<Seq<(u16, Seq<u8>)>>
    decreases r.len(),
{
    if r.len() == 0 {
        Some(seq![])
    } else if r.len() < 4 || 4 + be16(r, 2) > r.len() {
        None
    } else {
        let l = be16(r, 2);
        match parse_extensions(r.subrange(4 + l, r.len() as int)) {
            Some(rest) => Some(seq![(be16(r, 0) as u16, r.subrange(4, 4 + l))] + rest),
            None => None,
        }
    }
}

/// The parts of a ClientHello that the profile fixes.
pub struct HelloView {
    /// Cipher suites, in order
    pub ciphers: Seq<u16>,
    /// Extensions as type and data, in order
    pub extensions: Seq<(u16, Seq<u8>)>,
}

/// Where the handshake message starts: after the five-byte record header
/// when the bytes start with the handshake record type.
pub open spec fn hello_start(b: Seq<u8>) -> int {
    if b.len() > 0 && b[0] == 0x16 {
        5
    } else {
        0
    }
}

/// A ClientHello read from bytes: handshake type one, then the version and
/// random (34 bytes), the session id, the cipher suites, the compression
/// methods and the extensions, each after its length. The lengths of the
/// record and of the handshake message are not consulted.
pub open spec fn parse_hello(b: Seq<u8>) -> Option<HelloView> {
    let h = hello_start(b);
    if b.len() < h + 39 || b[h] != 1 {
        None
    } else {
        let p1 = h + 39 + b[h + 38] as int;
        if b.len() < p1 + 2 {
            None
        } else {
            let cs = be16(b, p1);
            let p2 = p1 + 2 + cs;
            if cs % 2 != 0 || b.len() < p2 + 1 {
                None
            } else {
                let p3 = p2 + 1 + b[p2] as int;
                if b.len() < p3 + 2 || b.len() < p3 + 2 + be16(b, p3) {
                    None
                } else {
                    match parse_extensions(b.subrange(p3 + 2, p3 + 2 + be16(b, p3))) {
                        Some(exts) => Some(
                            HelloView { ciphers: u16_list(b.subrange(p1 + 2, p2)), extensions: exts },
                        ),
                        None => None,
                    }
                }
            }
        }
    }
}

/// The data of the first extension of a type.
pub open spec fn extension_data(exts: Seq<(u16, Seq<u8>)>, t: u16) -> Option<Seq<u8>>
    decreases exts.len(),
{
    if exts.len() == 0 {
        None
    } else if exts[0].0 == t {
        Some(exts[0].1)
    } else {
        extension_data(exts.drop_first(), t)
    }
}

/// The list held by an extension whose data is a two-byte length followed
/// by 16-bit entries.
pub open spec fn list_of(d: Seq<u8>) -> Option<Seq<u16>> {
    if d.len() >= 2 && be16(d, 0) == d.len() - 2 && (d.len() - 2) % 2 == 0 {
        Some(u16_list(d.subrange(2, d.len() as int)))
    } else {
        None
    }
}

/// Whether a captured ClientHello presents the profile's orderings.
pub open spec fn hello_matches_profile(b: Seq<u8>) -> bool {
    match parse_hello(b) {
        Some(v) => {
            &&& v.ciphers == profile_ciphers()
            &&& v.extensions.map_values(|e: (u16, Seq<u8>)| e.0) == profile_extensions()
            &&& extension_data(v.extensions, 0x000a) matches Some(d) && list_of(d) == Some(
                profile_groups(),
            )
            &&& extension_data(v.extensions, 0x000d) matches Some(d) && list_of(d) == Some(
                profile_signature_algorithms(),
            )
        },
        None => false,
    }
}

/// Extensions found at byte positions, as type and data.
pub open spec fn ext_views(b: Seq<u8>, exts: Seq<(u16, usize, usize)>) -> Seq<(u16, Seq<u8>)> {
    exts.map_values(|e: (u16, usize, usize)| (e.0, b.subrange(e.1 as int, e.1 + e.2)))
}

fn read_be16(b: &[u8], i: usize) -> (r: u16)
    requires
        i + 2 <= b@.len(),
    ensures
        r == be16(b@, i as int),
{
    (b[i] as u16) * 256 + (b[i + 1] as u16)
}

fn read_u16_list(b: &[u8], from: usize, to: usize) -> (r: Vec<u16>)
    requires
        from <= to <= b@.len(),
        (to - from) % 2 == 0,
    ensures
        r@ == u16_list(b@.subrange(from as int, to as int)),
{
    let ghost s = b@.subrange(from as int, to as int);
    let mut r: Vec<u16> = Vec::new();
    let mut i: usize = from;
    while i < to
        invariant
            from <= i <= to,
            to <= b@.len(),
            (to - from) % 2 == 0,
            (i - from) % 2 == 0,
            s == b@.subrange(from as int, to as int),
            r@.len() == (i - from) / 2,
            forall|k: int| 0 <= k < r@.len() ==> r@[k] == be16(s, 2 * k) as u16,
        decreases to - i,
    {
        let v = read_be16(b, i);
        let ghost k = r@.len() as int;
        assert(be16(s, 2 * k) == be16(b@, i as int));
        r.push(v);
        i += 2;
    }
    assert(r@ =~= u16_list(s));
    r
}

fn u16s_equal(a: &Vec<u16>, b: &Vec<u16>) -> (r: bool)
    ensures
        r == (a@ == b@),
{
    if a.len() != b.len() {
        return false;
    }
    let mut i: usize = 0;
    while i < a.len()
        invariant
            a@.len() == b@.len(),
            i <= a@.len(),
            forall|k: int| 0 <= k < i ==> a@[k] == b@[k],
        decreases a@.len() - i,
    {
        if a[i] != b[i] {
            return false;
        }
        i += 1;
    }
    assert(a@ =~= b@);
    true
}

/// The extensions of the block `b[from..to]`, as type, data start and
/// data length.
fn walk_extensions(b: &[u8], from: usize, to: usize) -> (r: Option<Vec<(u16, usize, usize)>>)
    requires
        from <= to <= b@.len(),
    ensures
        match (r, parse_extensions(b@.subrange(from as int, to as int))) {
            (Some(v), Some(e)) => ext_views(b@, v@) == e && forall|k: int|
                0 <= k < v@.len() ==> (#[trigger] v@[k]).1 + v@[k].2 <= b@.len(),
            (None, None) => true,
            _ => false,
        },
{
    let mut exts: Vec<(u16, usize, usize)> = Vec::new();
    let mut pos: usize = from;
    while pos < to
        invariant
            from <= pos <= to,
            to <= b@.len(),
            forall|k: int| 0 <= k < exts@.len() ==> (#[trigger] exts@[k]).1 + exts@[k].2 <= b@.len(),
            parse_extensions(b@.subrange(from as int, to as int)) == match parse_extensions(
                b@.subrange(pos as int, to as int),
            ) {
                Some(rest) => Some(ext_views(b@, exts@) + rest),
                None => None::<Seq<(u16, Seq<u8>)>>,
            },
        decreases to - pos,
    {
        let ghost r = b@.subrange(pos as int, to as int);
        if to - pos < 4 {
            return None;
        }
        let t = read_be16(b, pos);
        let l = read_be16(b, pos + 2) as usize;
        assert(be16(r, 0) == t && be16(r, 2) == l);
        if to - (pos + 4) < l {
            return None;
        }
        let ghost old_views = ext_views(b@, exts@);
        exts.push((t, pos + 4, l));
        assert(r.subrange(4 + l, r.len() as int) =~= b@.subrange(pos + 4 + l, to as int));
        assert(r.subrange(4, 4 + l) =~= b@.subrange(pos + 4, pos + 4 + l));
        assert(ext_views(b@, exts@) =~= old_views.push((t, b@.subrange(pos + 4, pos + 4 + l))));
        proof {
            match parse_extensions(b@.subrange(pos + 4 + l, to as int)) {
                Some(rest) => {
                    assert(old_views + (seq![(t, b@.subrange(pos + 4, pos + 4 + l))] + rest)
                        =~= ext_views(b@, exts@) + rest);
                },
                None => {},
            }
        }
        pos = pos + 4 + l;
    }
    assert(b@.subrange(pos as int, to as int) =~= Seq::<u8>::empty());
    assert(ext_views(b@, exts@) + Seq::<(u16, Seq<u8>)>::empty() =~= ext_views(b@, exts@));
    Some(exts)
}

/// The data of the first extension of a type, as start and length.
fn find_extension(b: &[u8], exts: &Vec<(u16, usize, usize)>, t: u16) -> (r: Option<(usize, usize)>)
    requires
        forall|k: int| 0 <= k < exts@.len() ==> (#[trigger] exts@[k]).1 + exts@[k].2 <= b@.len(),
    ensures
        match (r, extension_data(ext_views(b@, exts@), t)) {
            (Some((s, l)), Some(d)) => s + l <= b@.len() && b@.subrange(s as int, s + l) == d,
            (None, None) => true,
            _ => false,
        },
{
    let ghost all = ext_views(b@, exts@);
    assert(all.subrange(0, all.len() as int) =~= all);
    let mut i: usize = 0;
    while i < exts.len()
        invariant
            i <= exts@.len(),
            all == ext_views(b@, exts@),
            forall|k: int|
                0 <= k < exts@.len() ==> (#[trigger] exts@[k]).1 + exts@[k].2 <= b@.len(),
            extension_data(all, t) == extension_data(all.subrange(i as int, all.len() as int), t),
        decreases exts@.len() - i,
    {
        let ghost rest = all.subrange(i as int, all.len() as int);
        assert(all.len() == exts@.len());
        assert(rest.len() > 0);
        assert(rest.drop_first() =~= all.subrange(i + 1, all.len() as int));
        assert(rest[0] == all[i as int]);
        assert(all[i as int] == (exts@[i as int].0, b@.subrange(
            exts@[i as int].1 as int,
            exts@[i as int].1 + exts@[i as int].2,
        )));
        if exts[i].0 == t {
            assert(extension_data(rest, t) == Some(rest[0].1));
            let (_, start, len) = exts[i];
            assert(start + len <= b@.len());
            assert(extension_data(all, t) == Some(b@.subrange(start as int, start + len)));
            return Some((start, len));
        }
        i += 1;
    }
    assert(all.subrange(i as int, all.len() as int) =~= Seq::<(u16, Seq<u8>)>::empty());
    None
}

/// Whether the extension data `b[s..s + l]` lists exactly `expected`.
fn list_extension_is(b: &[u8], s: usize, l: usize, expected: &Vec<u16>) -> (r: bool)
    requires
        s + l <= b@.len(),
    ensures
        r == (list_of(b@.subrange(s as int, s + l)) == Some(expected@)),
{
    let ghost d = b@.subrange(s as int, s + l);
    let n = b.len();
    if l < 2 {
        return false;
    }
    let len = read_be16(b, s) as usize;
    assert(be16(d, 0) == len);
    if len != l - 2 || len % 2 != 0 {
        return false;
    }
    let list = read_u16_list(b, s + 2, s + l);
    assert(d.subrange(2, d.len() as int) =~= b@.subrange(s + 2, s + l));
    u16s_equal(&list, expected)
}

/// Cipher suites of the profile, in order.
pub open spec fn profile_ciphers() -> Seq<u16> {
    seq![
        0x1301u16, 0x1303u16, 0x1302u16, 0xc02bu16, 0xc02fu16, 0xc02cu16, 0xc030u16, 0xcca9u16,
        0xcca8u16, 0xc013u16, 0xc014u16, 0x009cu16, 0x009du16, 0x002fu16, 0x0035u16,
    ]
}

/// Extensions of the profile, in order.
pub open spec fn profile_extensions() -> Seq<u16> {
    seq![
        0x0000u16, 0x0017u16, 0xff01u16, 0x000au16, 0x000bu16, 0x0023u16, 0x0010u16, 0x0005u16,
        0x0022u16, 0x0033u16, 0x002bu16, 0x000du16, 0x001cu16, 0x001bu16, 0x0029u16,
    ]
}

/// Supported groups of the profile, in order.
pub open spec fn profile_groups() -> Seq<u16> {
    seq![0x001du16, 0x0017u16, 0x0018u16, 0x0019u16, 0x0100u16, 0x0101u16]
}

/// Signature algorithms of the profile, in order.
pub open spec fn profile_signature_algorithms() -> Seq<u16> {
    seq![
        0x0403u16, 0x0503u16, 0x0603u16, 0x0804u16, 0x0805u16, 0x0806u16, 0x0401u16, 0x0501u16,
        0x0601u16,
    ]
}

/// ALPN protocols of the profile, in order.
pub open spec fn profile_alpn() -> Seq<Seq<char>> {
    seq!["h2"@, "http/1.1"@]
}

/// The ALPN protocols of a configuration, as character sequences.
pub open spec fn alpn_view(c: TlsConfig) -> Seq<Seq<char>> {
    c.alpn_protocols@.map_values(|s: String| s@)
}

/// Whether a configuration is the compiled-in profile.
pub open spec fn is_profile(c: TlsConfig) -> bool {
    &&& c.cipher_suites@ == profile_ciphers()
    &&& c.extensions@ == profile_extensions()
    &&& c.supported_groups@ == profile_groups()
    &&& c.signature_algorithms@ == profile_signature_algorithms()
    &&& alpn_view(c) == profile_alpn()
    &&& c.min_version == TlsVersion::Tls12
    &&& c.max_version == TlsVersion::Tls13
}

/// The profile's first cipher suite is TLS_AES_128_GCM_SHA256, and its
/// minimum version is below its maximum version.
pub proof fn lemma_profile_fixed(c: TlsConfig)
    requires
        is_profile(c),
    ensures
        c.cipher_suites@[0] == 0x1301u16,
        version_number(c.min_version) < version_number(c.max_version),
{
}

fn copy_u16s(v: &Vec<u16>) -> (r: Vec<u16>)
    ensures
        r@ == v@,
{
    let r = v.clone();
    assert(r@ =~= v@);
    r
}

fn copy_strings(v: &Vec<String>) -> (r: Vec<String>)
    ensures
        r@.map_values(|s: String| s@) == v@.map_values(|s: String| s@),
{
    let mut r: Vec<String> = Vec::new();
    let mut i: usize = 0;
    while i < v.len()
        invariant
            i <= v@.len(),
            r@.len() == i,
            forall|j: int| 0 <= j < i ==> r@[j]@ == v@[j]@,
        decreases v@.len() - i,
    {
        r.push(v[i].clone());
        i += 1;
    }
    assert(r@.map_values(|s: String| s@) =~= v@.map_values(|s: String| s@));
    r
}

/// Normalizes the TLS fingerprint to match the target browser.
pub struct TlsFingerprintNormalizer {
    config: TlsConfig,
}

impl TlsFingerprintNormalizer {
    /// The configuration it hands out.
    pub closed spec fn config(&self) -> TlsConfig {
        self.config
    }

    /// Holds the compiled-in profile.
    pub open spec fn wf(&self) -> bool {
        is_profile(self.config())
    }

    /// Create a new TLS fingerprint normalizer.
    pub fn new() -> (r: Self)
        ensures
            r.wf(),
    {
        TlsFingerprintNormalizer { config: Self::tor_browser_config() }
    }

    /// The TLS configuration of the target browser release.
    fn tor_browser_config() -> (r: TlsConfig)
        ensures
            is_profile(r),
    {
        let alpn = vec![owned("h2"), owned("http/1.1")];
        let r = TlsConfig {
            cipher_suites: vec![
                0x1301, 0x1303, 0x1302, 0xc02b, 0xc02f, 0xc02c, 0xc030, 0xcca9, 0xcca8, 0xc013,
                0xc014, 0x009c, 0x009d, 0x002f, 0x0035,
            ],
            extensions: vec![
                0x0000, 0x0017, 0xff01, 0x000a, 0x000b, 0x0023, 0x0010, 0x0005, 0x0022, 0x0033,
                0x002b, 0x000d, 0x001c, 0x001b, 0x0029,
            ],
            supported_groups: vec![0x001d, 0x0017, 0x0018, 0x0019, 0x0100, 0x0101],
            signature_algorithms: vec![
                0x0403, 0x0503, 0x0603, 0x0804, 0x0805, 0x0806, 0x0401, 0x0501, 0x0601,
            ],
            alpn_protocols: alpn,
            min_version: TlsVersion::Tls12,
            max_version: TlsVersion::Tls13,
        };
        assert(r.cipher_suites@ =~= profile_ciphers());
        assert(r.extensions@ =~= profile_extensions());
        assert(r.supported_groups@ =~= profile_groups());
        assert(r.signature_algorithms@ =~= profile_signature_algorithms());
        assert(alpn_view(r) =~= profile_alpn());
        r
    }

    /// Create a TLS configuration for use in connections: always the
    /// compiled-in profile.
    pub fn create_config(&self) -> (r: Result<TlsConfig, NetworkError>)
        requires
            self.wf(),
        ensures
            r matches Ok(c) && is_profile(c),
    {
        let c = &self.config;
        let alpn = copy_strings(&c.alpn_protocols);
        let r = TlsConfig {
            cipher_suites: copy_u16s(&c.cipher_suites),
            extensions: copy_u16s(&c.extensions),
            supported_groups: copy_u16s(&c.supported_groups),
            signature_algorithms: copy_u16s(&c.signature_algorithms),
            alpn_protocols: alpn,
            min_version: c.min_version,
            max_version: c.max_version,
        };
        Ok(r)
    }

    /// The expected JA3 fingerprint hash of the profile.
    pub fn expected_ja3_hash(&self) -> (r: &'static str)
        ensures
            r@ == "e7d705a3286e19ea42f587b344ee6865"@,
    {
        "e7d705a3286e19ea42f587b344ee6865"
    }

    /// Verify that a captured ClientHello presents the profile: its cipher
    /// suites and extension types are the profile's, in order, and its
    /// supported groups and signature algorithms extensions list the
    /// profile's, in order. The bytes may start with the TLS record header.
    pub fn verify_client_hello(&self, client_hello: &[u8]) -> (r: bool)
        requires
            self.wf(),
        ensures
            r == hello_matches_profile(client_hello@),
    {
        let b = client_hello;
        let n = b.len();
        let h: usize = if n > 0 && b[0] == 0x16 {
            5
        } else {
            0
        };
        let ghost bv = b@;
        if n < h + 39 || b[h] != 1 {
            return false;
        }
        let sid = b[h + 38] as usize;
        if n - (h + 39) < sid {
            return false;
        }
        let p1 = h + 39 + sid;
        if n - p1 < 2 {
            return false;
        }
        let cs = read_be16(b, p1) as usize;
        if cs % 2 != 0 || n - (p1 + 2) < cs {
            return false;
        }
        let p2 = p1 + 2 + cs;
        if n - p2 < 1 {
            return false;
        }
        let cm = b[p2] as usize;
        if n - (p2 + 1) < cm {
            return false;
        }
        let p3 = p2 + 1 + cm;
        if n - p3 < 2 {
            return false;
        }
        let el = read_be16(b, p3) as usize;
        if n - (p3 + 2) < el {
            return false;
        }
        let exts = match walk_extensions(b, p3 + 2, p3 + 2 + el) {
            Some(e) => e,
            None => {
                return false;
            },
        };
        let ghost hv = parse_hello(bv);
        assert(hv matches Some(v) && v.extensions == ext_views(bv, exts@));
        let ciphers = read_u16_list(b, p1 + 2, p2);
        assert(hv.unwrap().ciphers == ciphers@);
        if !u16s_equal(&ciphers, &self.config.cipher_suites) {
            return false;
        }
        let mut types: Vec<u16> = Vec::new();
        let mut i: usize = 0;
        while i < exts.len()
            invariant
                i <= exts@.len(),
                types@ == ext_views(bv, exts@).subrange(0, i as int).map_values(
                    |e: (u16, Seq<u8>)| e.0,
                ),
            decreases exts@.len() - i,
        {
            types.push(exts[i].0);
            i += 1;
            assert(types@ =~= ext_views(bv, exts@).subrange(0, i as int).map_values(
                |e: (u16, Seq<u8>)| e.0,
            ));
        }
        assert(ext_views(bv, exts@).subrange(0, exts@.len() as int) =~= ext_views(bv, exts@));
        if !u16s_equal(&types, &self.config.extensions) {
            return false;
        }
        let groups_ok = match find_extension(b, &exts, 0x000a) {
            Some((s, l)) => list_extension_is(b, s, l, &self.config.supported_groups),
            None => false,
        };
        if !groups_ok {
            return false;
        }
        match find_extension(b, &exts, 0x000d) {
            Some((s, l)) => list_extension_is(b, s, l, &self.config.signature_algorithms),
            None => false,
        }
    }
}

impl Default for TlsFingerprintNormalizer {
    fn default() -> (r: Self) {
        Self::new()
    }
}

/// HTTP/2 priority settings.
#[derive(Debug, Clone, Copy)]
pub struct Http2Priority {
    /// Stream dependency
    pub depends_on: u32,
    /// Weight
    pub weight: u8,
    /// Exclusive flag
    pub exclusive: bool,
}

/// HTTP/2 fingerprint normalization: SETTINGS can identify a client too.
#[derive(Debug)]
pub struct Http2Fingerprint {
    /// SETTINGS frame values
    pub settings: Vec<(u16, u32)>,
    /// Window update value
    pub window_update: u32,
    /// Header priority
    pub priority: Http2Priority,
}

/// The SETTINGS of the target browser, in order.
pub open spec fn profile_settings() -> Seq<(u16, u32)> {
    seq![(0x1u16, 65536u32), (0x2u16, 0u32), (0x3u16, 0u32), (0x4u16, 131072u32), (0x5u16, 16384u32), (0x6u16, 0u32)]
}

impl Default for Http2Fingerprint {
    fn default() -> (r: Self)
        ensures
            r.settings@ == profile_settings(),
            r.window_update == 12517377,
            r.priority.depends_on == 0,
            r.priority.weight == 41,
            !r.priority.exclusive,
    {
        let settings = vec![(0x1, 65536), (0x2, 0), (0x3, 0), (0x4, 131072), (0x5, 16384), (0x6, 0)];
        assert(settings@ =~= profile_settings());
        Http2Fingerprint {
            settings,
            window_update: 12517377,
            priority: Http2Priority { depends_on: 0, weight: 41, exclusive: false },
        }
    }
}

} // verus!
