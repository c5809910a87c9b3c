//! Synthetic request headers: a per-request header set drawn from a small
//! anonymity set, a sanitizer that removes identifying headers, and a
//! canonical header order.

use crate::random::random_below;
use crate::text::{lower_of, lowercase, owned, str_eq};
use vstd::prelude::*;
use vstd::string::*;

verus! {

broadcast use vstd::seq_lib::group_filter_ensures;

/// A header as a name and a value.
pub type Header = (String, String);

/// The user agents of the target browser's release train.
pub open spec fn user_agents() -> Seq<Seq<char>> {
    seq![
        "Mozilla/5.0 (Windows NT 10.0; rv:115.0) Gecko/20100101 Firefox/115.0"@,
        "Mozilla/5.0 (X11; Linux x86_64; rv:115.0) Gecko/20100101 Firefox/115.0"@,
        "Mozilla/5.0 (Macintosh; Intel Mac OS X 10.15; rv:115.0) Gecko/20100101 Firefox/115.0"@,
    ]
}

/// Accept header for HTML pages.
pub open spec fn accept_html() -> Seq<char> {
    "text/html,application/xhtml+xml,application/xml;q=0.9,image/avif,image/webp,*/*;q=0.8"@
}

/// Accept header for images.
pub open spec fn accept_image() -> Seq<char> {
    "image/avif,image/webp,*/*"@
}

/// The one Accept-Language value: rotating it would itself be a signal.
pub open spec fn accept_language() -> Seq<char> {
    "en-US,en;q=0.5"@
}

/// Accept-Encoding header.
pub open spec fn accept_encoding() -> Seq<char> {
    "gzip, deflate, br"@
}

/// The user agent at a position of the anonymity set.
fn user_agent_at(i: usize) -> (r: &'static str)
    requires
        i < 3,
    ensures
        r@ == user_agents()[i as int],
{
    if i == 0 {
        "Mozilla/5.0 (Windows NT 10.0; rv:115.0) Gecko/20100101 Firefox/115.0"
    } else if i == 1 {
        "Mozilla/5.0 (X11; Linux x86_64; rv:115.0) Gecko/20100101 Firefox/115.0"
    } else {
        "Mozilla/5.0 (Macintosh; Intel Mac OS X 10.15; rv:115.0) Gecko/20100101 Firefox/115.0"
    }
}

/// A set of synthetic HTTP headers.
#[derive(Debug, Clone)]
pub struct SyntheticHeaders {
    /// User-Agent header
    pub user_agent: String,
    /// Accept header
    pub accept: String,
    /// Accept-Language header
    pub accept_language: String,
    /// Accept-Encoding header
    pub accept_encoding: String,
}

/// The header list sent for a set of synthetic headers, as views.
pub open spec fn header_list(h: SyntheticHeaders) -> Seq<(Seq<char>, Seq<char>)> {
    seq![
        ("User-Agent"@, h.user_agent@),
        ("Accept"@, h.accept@),
        ("Accept-Language"@, h.accept_language@),
        ("Accept-Encoding"@, h.accept_encoding@),
        ("Connection"@, "keep-alive"@),
        ("Upgrade-Insecure-Requests"@, "1"@),
        ("Sec-Fetch-Dest"@, "document"@),
        ("Sec-Fetch-Mode"@, "navigate"@),
        ("Sec-Fetch-Site"@, "none"@),
        ("Sec-Fetch-User"@, "?1"@),
    ]
}

/// A header as a pair of character sequences.
pub open spec fn header_view(h: Header) -> (Seq<char>, Seq<char>) {
    (h.0@, h.1@)
}

/// A header list as pairs of character sequences.
pub open spec fn headers_view(s: Seq<Header>) -> Seq<(Seq<char>, Seq<char>)> {
    s.map_values(|h: Header| header_view(h))
}

/// A header built from two string slices.
fn header(name: &str, value: &str) -> (r: Header)
    ensures
        r.0@ == name@,
        r.1@ == value@,
{
    (owned(name), owned(value))
}

/// A copy of a header.
pub fn copy_header(h: &Header) -> (r: Header)
    ensures
        r == *h,
{
    (h.0.clone(), h.1.clone())
}

/// Synthesizes HTTP headers for anonymized requests.
pub struct HeaderSynthesizer {}

impl HeaderSynthesizer {
    /// Create a new header synthesizer.
    pub fn new() -> (r: Self) {
        HeaderSynthesizer {  }
    }

    /// The headers of a request whose user agent is the one at `choice` in
    /// the anonymity set.
    pub fn generate_with_choice(&self, choice: usize) -> (r: SyntheticHeaders)
        requires
            choice < 3,
        ensures
            r.user_agent@ == user_agents()[choice as int],
            r.accept@ == accept_html(),
            r.accept_language@ == accept_language(),
            r.accept_encoding@ == accept_encoding(),
    {
        SyntheticHeaders {
            user_agent: owned(user_agent_at(choice)),
            accept: owned(
                "text/html,application/xhtml+xml,application/xml;q=0.9,image/avif,image/webp,*/*;q=0.8",
            ),
            accept_language: owned("en-US,en;q=0.5"),
            accept_encoding: owned("gzip, deflate, br"),
        }
    }

    /// Generate a complete set of synthetic headers for a request: the user
    /// agent is drawn from the anonymity set, the rest is fixed.
    pub fn generate(&self) -> (r: SyntheticHeaders)
        ensures
            user_agents().contains(r.user_agent@),
            r.accept@ == accept_html(),
            r.accept_language@ == accept_language(),
            r.accept_encoding@ == accept_encoding(),
    {
        let choice = random_below(3);
        let r = self.generate_with_choice(choice);
        assert(user_agents()[choice as int] == r.user_agent@);
        r
    }

    /// Generate headers for an image request.
    pub fn generate_for_image(&self) -> (r: SyntheticHeaders)
        ensures
            user_agents().contains(r.user_agent@),
            r.accept@ == accept_image(),
            r.accept_language@ == accept_language(),
            r.accept_encoding@ == accept_encoding(),
    {
        let mut headers = self.generate();
        headers.accept = owned("image/avif,image/webp,*/*");
        headers
    }

    /// Convert synthetic headers to a list of (name, value) pairs, with the
    /// fixed navigation headers appended.
    pub fn to_header_list(headers: &SyntheticHeaders) -> (r: Vec<Header>)
        ensures
            headers_view(r@) == header_list(*headers),
    {
        let mut v: Vec<Header> = Vec::new();
        v.push(header("User-Agent", headers.user_agent.as_str()));
        v.push(header("Accept", headers.accept.as_str()));
        v.push(header("Accept-Language", headers.accept_language.as_str()));
        v.push(header("Accept-Encoding", headers.accept_encoding.as_str()));
        v.push(header("Connection", "keep-alive"));
        v.push(header("Upgrade-Insecure-Requests", "1"));
        v.push(header("Sec-Fetch-Dest", "document"));
        v.push(header("Sec-Fetch-Mode", "navigate"));
        v.push(header("Sec-Fetch-Site", "none"));
        v.push(header("Sec-Fetch-User", "?1"));
        assert(headers_view(v@) =~= header_list(*headers));
        v
    }
}

impl Default for HeaderSynthesizer {
    fn default() -> (r: Self) {
        Self::new()
    }
}

impl SyntheticHeaders {
    /// Convert to header list for use in requests.
    pub fn to_vec(&self) -> (r: Vec<Header>)
        ensures
            headers_view(r@) == header_list(*self),
    {
        HeaderSynthesizer::to_header_list(self)
    }
}

/// The lower-case names that never leave in a request.
pub open spec fn is_dangerous_lower(n: Seq<char>) -> bool {
    n == "cookie"@ || n == "authorization"@ || n == "proxy-authorization"@
        || n == "x-forwarded-for"@ || n == "x-real-ip"@ || n == "x-client-ip"@
        || n == "forwarded"@ || n == "via"@ || n == "x-request-id"@
        || n == "x-correlation-id"@ || n == "dnt"@ || n == "referer"@ || n == "origin"@
}

/// Whether a header name matches a forbidden name, ignoring case.
pub open spec fn is_dangerous_name(name: Seq<char>) -> bool {
    is_dangerous_lower(lower_of(name))
}

/// Whether a header is kept by the sanitizer.
pub open spec fn is_safe_header(h: Header) -> bool {
    !is_dangerous_name(h.0@)
}

/// A header list with every forbidden header removed, order kept.
pub open spec fn strip_dangerous(s: Seq<Header>) -> Seq<Header> {
    s.filter(safe_header())
}

/// The sanitizer's test, as a predicate.
pub open spec fn safe_header() -> spec_fn(Header) -> bool {
    |h: Header| is_safe_header(h)
}

/// Whether a lower-case header name is one that never leaves in a request.
pub fn is_forbidden_name(lower: &str) -> (r: bool)
    ensures
        r == is_dangerous_lower(lower@),
{
    str_eq(lower, "cookie") || str_eq(lower, "authorization") || str_eq(
        lower,
        "proxy-authorization",
    ) || str_eq(lower, "x-forwarded-for") || str_eq(lower, "x-real-ip") || str_eq(
        lower,
        "x-client-ip",
    ) || str_eq(lower, "forwarded") || str_eq(lower, "via") || str_eq(lower, "x-request-id")
        || str_eq(lower, "x-correlation-id") || str_eq(lower, "dnt") || str_eq(lower, "referer")
        || str_eq(lower, "origin")
}

/// Strips dangerous headers from outgoing requests: every header whose name
/// matches a forbidden name, ignoring case, is removed; the others keep
/// their order.
pub fn strip_dangerous_headers(headers: &mut Vec<Header>)
    ensures
        final(headers)@ == strip_dangerous(old(headers)@),
{
    let mut out: Vec<Header> = Vec::new();
    let n = headers.len();
    let mut i: usize = 0;
    while i < n
        invariant
            n == headers@.len(),
            i <= n,
            out@ == headers@.subrange(0, i as int).filter(safe_header()),
        decreases n - i,
    {
        let name = headers[i].0.as_str();
        assert(name@ == headers@[i as int].0@);
        let lower = lowercase(name);
        let dangerous = is_forbidden_name(lower.as_str());
        assert(dangerous == is_dangerous_name(headers@[i as int].0@));
        assert(dangerous == !safe_header()(headers@[i as int]));
        proof {
            reveal(Seq::filter);
            assert(headers@.subrange(0, i + 1).drop_last() =~= headers@.subrange(0, i as int));
            assert(headers@.subrange(0, i + 1).last() == headers@[i as int]);
        }
        if !dangerous {
            out.push(copy_header(&headers[i]));
        }
        i += 1;
    }
    assert(headers@.subrange(0, n as int) =~= headers@);
    *headers = out;
}

/// The canonical position of a lower-case header name; names absent from
/// the table come after all present ones.
pub open spec fn rank_of_lower(n: Seq<char>) -> nat {
    if n == "host"@ {
        0
    } else if n == "user-agent"@ {
        1
    } else if n == "accept"@ {
        2
    } else if n == "accept-language"@ {
        3
    } else if n == "accept-encoding"@ {
        4
    } else if n == "connection"@ {
        5
    } else if n == "upgrade-insecure-requests"@ {
        6
    } else if n == "sec-fetch-dest"@ {
        7
    } else if n == "sec-fetch-mode"@ {
        8
    } else if n == "sec-fetch-site"@ {
        9
    } else if n == "sec-fetch-user"@ {
        10
    } else if n == "content-type"@ {
        11
    } else if n == "content-length"@ {
        12
    } else {
        13
    }
}

/// The number of distinct positions.
pub open spec fn rank_count() -> nat {
    14
}

/// The canonical position of a header, by its name ignoring case.
pub open spec fn header_rank(h: Header) -> nat {
    rank_of_lower(lower_of(h.0@))
}

/// Whether a header has position `k`.
pub open spec fn has_rank(k: nat) -> spec_fn(Header) -> bool {
    |h: Header| header_rank(h) == k
}

/// The headers of positions below `k`, by position, each position keeping
/// the input order.
pub open spec fn ordered_below(s: Seq<Header>, k: nat) -> Seq<Header>
    decreases k,
{
    if k == 0 {
        seq![]
    } else {
        ordered_below(s, (k - 1) as nat) + s.filter(has_rank((k - 1) as nat))
    }
}

/// A header list in canonical order: a stable sort by position.
pub open spec fn normalized(s: Seq<Header>) -> Seq<Header> {
    ordered_below(s, rank_count())
}

/// The canonical position of a lower-case header name.
pub fn canonical_rank(lower: &str) -> (r: usize)
    ensures
        r == rank_of_lower(lower@),
{
    if str_eq(lower, "host") {
        0
    } else if str_eq(lower, "user-agent") {
        1
    } else if str_eq(lower, "accept") {
        2
    } else if str_eq(lower, "accept-language") {
        3
    } else if str_eq(lower, "accept-encoding") {
        4
    } else if str_eq(lower, "connection") {
        5
    } else if str_eq(lower, "upgrade-insecure-requests") {
        6
    } else if str_eq(lower, "sec-fetch-dest") {
        7
    } else if str_eq(lower, "sec-fetch-mode") {
        8
    } else if str_eq(lower, "sec-fetch-site") {
        9
    } else if str_eq(lower, "sec-fetch-user") {
        10
    } else if str_eq(lower, "content-type") {
        11
    } else if str_eq(lower, "content-length") {
        12
    } else {
        13
    }
}

/// Normalizes header order: headers are sorted by their canonical position,
/// and headers of the same position (in particular all unknown ones) keep
/// their relative input order.
pub fn normalize_header_order(headers: &mut Vec<Header>)
    ensures
        final(headers)@ == normalized(old(headers)@),
{
    let n = headers.len();
    let mut ranks: Vec<usize> = Vec::new();
    let mut i: usize = 0;
    while i < n
        invariant
            n == headers@.len(),
            i <= n,
            ranks@.len() == i,
            forall|j: int| 0 <= j < i ==> ranks@[j] == header_rank(#[trigger] headers@[j]),
        decreases n - i,
    {
        let lower = lowercase(headers[i].0.as_str());
        ranks.push(canonical_rank(lower.as_str()));
        i += 1;
    }
    let mut out: Vec<Header> = Vec::new();
    let mut k: usize = 0;
    while k < 14
        invariant
            n == headers@.len(),
            ranks@.len() == n,
            forall|j: int| 0 <= j < n ==> ranks@[j] == header_rank(#[trigger] headers@[j]),
            k <= 14,
            out@ == ordered_below(headers@, k as nat),
        decreases 14 - k,
    {
        let ghost base = out@;
        let mut i: usize = 0;
        while i < n
            invariant
                n == headers@.len(),
                ranks@.len() == n,
                forall|j: int| 0 <= j < n ==> ranks@[j] == header_rank(#[trigger] headers@[j]),
                k < 14,
                i <= n,
                base == ordered_below(headers@, k as nat),
                out@ == base + headers@.subrange(0, i as int).filter(has_rank(k as nat)),
            decreases n - i,
        {
            proof {
                reveal(Seq::filter);
                assert(headers@.subrange(0, i + 1).drop_last() =~= headers@.subrange(0, i as int));
                assert(headers@.subrange(0, i + 1).last() == headers@[i as int]);
            }
            if ranks[i] == k {
                out.push(copy_header(&headers[i]));
                assert(out@ =~= base + headers@.subrange(0, i + 1).filter(has_rank(k as nat)));
            } else {
                assert(out@ =~= base + headers@.subrange(0, i + 1).filter(has_rank(k as nat)));
            }
            i += 1;
        }
        assert(headers@.subrange(0, n as int) =~= headers@);
        k += 1;
    }
    *headers = out;
}

/// Filtering by one position after another leaves only the common position.
proof fn lemma_filter_two_ranks(s: Seq<Header>, j: nat, k: nat)
    ensures
        s.filter(has_rank(k)).filter(has_rank(j)) == (if j == k {
            s.filter(has_rank(k))
        } else {
            Seq::<Header>::empty()
        }),
    decreases s.len(),
{
    reveal(Seq::filter);
    if s.len() > 0 {
        lemma_filter_two_ranks(s.drop_last(), j, k);
        let fk = s.filter(has_rank(k));
        if header_rank(s.last()) == k {
            assert(fk.drop_last() =~= s.drop_last().filter(has_rank(k)));
        }
    } else {
        assert(s.filter(has_rank(k)) =~= s);
    }
}

/// The headers of position `j` in the ordered prefix below `n`.
proof fn lemma_ordered_below_filter(s: Seq<Header>, n: nat, j: nat)
    ensures
        ordered_below(s, n).filter(has_rank(j)) == (if j < n {
            s.filter(has_rank(j))
        } else {
            Seq::<Header>::empty()
        }),
    decreases n,
{
    reveal(Seq::filter);
    if n == 0 {
        assert(ordered_below(s, n) =~= Seq::<Header>::empty());
    } else {
        let m = (n - 1) as nat;
        lemma_ordered_below_filter(s, m, j);
        lemma_filter_two_ranks(s, j, m);
        Seq::filter_distributes_over_add(ordered_below(s, m), s.filter(has_rank(m)), has_rank(j));
        if j < m {
            assert(s.filter(has_rank(j)) + Seq::<Header>::empty() =~= s.filter(has_rank(j)));
        } else if j == m {
            assert(Seq::<Header>::empty() + s.filter(has_rank(j)) =~= s.filter(has_rank(j)));
        } else {
            assert(Seq::<Header>::empty() + Seq::<Header>::empty() =~= Seq::<Header>::empty());
        }
    }
}

proof fn lemma_ordered_below_normalized(s: Seq<Header>, n: nat)
    requires
        n <= rank_count(),
    ensures
        ordered_below(normalized(s), n) == ordered_below(s, n),
    decreases n,
{
    if n > 0 {
        let m = (n - 1) as nat;
        lemma_ordered_below_normalized(s, m);
        lemma_ordered_below_filter(s, rank_count(), m);
    }
}

/// Normalizing header order twice gives the same list as normalizing once.
pub proof fn lemma_normalize_idempotent(s: Seq<Header>)
    ensures
        normalized(normalized(s)) == normalized(s),
{
    lemma_ordered_below_normalized(s, rank_count());
}

/// After stripping, no header name matches a forbidden name, ignoring case;
/// and stripping twice gives the same list as stripping once.
pub proof fn lemma_strip_dangerous(s: Seq<Header>)
    ensures
        forall|i: int|
            0 <= i < strip_dangerous(s).len() ==> !is_dangerous_lower(
                lower_of(#[trigger] strip_dangerous(s)[i].0@),
            ),
        strip_dangerous(strip_dangerous(s)) == strip_dangerous(s),
{
    lemma_filter_idempotent(s, safe_header());
}

proof fn lemma_filter_idempotent(s: Seq<Header>, p: spec_fn(Header) -> bool)
    ensures
        s.filter(p).filter(p) == s.filter(p),
    decreases s.len(),
{
    reveal(Seq::filter);
    if s.len() > 0 {
        lemma_filter_idempotent(s.drop_last(), p);
        if p(s.last()) {
            assert(s.filter(p).drop_last() =~= s.drop_last().filter(p));
        }
    } else {
        assert(s.filter(p) =~= s);
    }
}

} // verus!
