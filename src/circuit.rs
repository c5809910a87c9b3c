//! Circuits: one isolated transport path per request. Circuit identifiers
//! are issued here and tracked until shutdown; the request line and headers
//! sent over a circuit are built here too.

use crate::headers::{Header, headers_view};
use crate::network::NetworkError;
use crate::text::{
    decimal, decimal_string, find_char, first_index, has_char, has_prefix, hex_padded,
    hex_string, last_index, lemma_hex_padded_injective, owned, rfind_char, starts_with,
    value_of,
};
use vstd::prelude::*;
use vstd::slice::slice_to_vec;
use vstd::string::*;
use vstd::utf8::encode_utf8;

verus! {

/// Parsed URL components.
#[derive(Debug)]
pub struct ParsedUrl {
    /// Host name
    pub host: String,
    /// Port
    pub port: u16,
    /// Path, starting with a slash
    pub path: String,
}

/// Raw HTTP response from the network.
#[derive(Debug)]
pub struct RawResponse {
    /// HTTP status code
    pub status: u16,
    /// Response headers
    pub headers: Vec<Header>,
    /// Response body
    pub body: Vec<u8>,
}

/// Whether every character is an ASCII decimal digit.
pub open spec fn all_decimal(s: Seq<char>) -> bool {
    forall|i: int| 0 <= i < s.len() ==> '0' <= #[trigger] s[i] <= '9'
}

/// The digits of a port number: one leading `+` is allowed.
pub open spec fn port_digits(s: Seq<char>) -> Seq<char> {
    if s.len() > 0 && s[0] == '+' {
        s.drop_first()
    } else {
        s
    }
}

/// The port a string denotes, as `u16::from_str` reads it.
pub open spec fn port_of(s: Seq<char>) -> Option<u16> {
    let d = port_digits(s);
    if d.len() > 0 && all_decimal(d) && value_of(d, 10) <= 65535 {
        Some(value_of(d, 10) as u16)
    } else {
        None
    }
}

/// Parse a port number.
pub fn parse_port(s: &str) -> (r: Option<u16>)
    ensures
        r == port_of(s@),
{
    let n = s.unicode_len();
    let mut start: usize = 0;
    if n > 0 && s.get_char(0) == '+' {
        start = 1;
    }
    let ghost d = port_digits(s@);
    assert(d =~= s@.subrange(start as int, n as int));
    if start == n {
        return None;
    }
    let mut val: u32 = 0;
    let mut i: usize = start;
    while i < n
        invariant
            n == s@.len(),
            start <= i <= n,
            d == s@.subrange(start as int, n as int),
            d == port_digits(s@),
            all_decimal(s@.subrange(start as int, i as int)),
            val as int == if value_of(s@.subrange(start as int, i as int), 10) < 65536 {
                value_of(s@.subrange(start as int, i as int), 10)
            } else {
                65536
            },
            value_of(s@.subrange(start as int, i as int), 10) >= 0,
        decreases n - i,
    {
        let c = s.get_char(i);
        if !('0' <= c && c <= '9') {
            assert(d[i - start] == c);
            assert(!('0' <= d[i - start] <= '9'));
            assert(!all_decimal(d));
            return None;
        }
        let digit: u32 = (c as u32) - ('0' as u32);
        let ghost prev = s@.subrange(start as int, i as int);
        let ghost next = s@.subrange(start as int, i + 1);
        assert(next.drop_last() =~= prev);
        assert(next.last() == c);
        assert(crate::text::digit_value(c) == digit) by {
            assert('0' <= c <= '9');
        }
        assert(value_of(next, 10) == value_of(prev, 10) * 10 + digit);
        if val >= 65536 {
            val = 65536;
        } else {
            let v = val * 10 + digit;
            val = if v < 65536 {
                v
            } else {
                65536
            };
        }
        i += 1;
    }
    assert(s@.subrange(start as int, n as int) =~= d);
    if val < 65536 {
        Some(val as u16)
    } else {
        None
    }
}

/// The result of parsing a URL, as views: host, port and path, or the
/// message of the `InvalidUrl` error.
pub open spec fn url_parts(url: Seq<char>) -> Result<(Seq<char>, u16, Seq<char>), Seq<char>> {
    if !has_prefix(url, "https://"@) {
        Err("Not HTTPS"@)
    } else {
        let rest = url.subrange(8, url.len() as int);
        let host_port = if has_char(rest, '/') {
            rest.subrange(0, first_index(rest, '/'))
        } else {
            rest
        };
        let path = if has_char(rest, '/') {
            rest.subrange(first_index(rest, '/'), rest.len() as int)
        } else {
            "/"@
        };
        if has_char(host_port, ':') {
            let k = last_index(host_port, ':');
            match port_of(host_port.subrange(k + 1, host_port.len() as int)) {
                Some(port) => Ok((host_port.subrange(0, k), port, path)),
                None => Err("Invalid port"@),
            }
        } else {
            Ok((host_port, 443u16, path))
        }
    }
}

/// Parse an `https` URL into host, port (443 when absent) and path ("/"
/// when absent). Any other scheme, or a port that is not a number below
/// 65536, is an `InvalidUrl` error.
pub fn parse_url(url: &str) -> (r: Result<ParsedUrl, NetworkError>)
    ensures
        match (r, url_parts(url@)) {
            (Ok(p), Ok((host, port, path))) => p.host@ == host && p.port == port && p.path@
                == path,
            (Err(NetworkError::InvalidUrl(m)), Err(msg)) => m@ == msg,
            _ => false,
        },
{
    proof {
        reveal_strlit("https://");
    }
    if !starts_with(url, "https://") {
        return Err(NetworkError::InvalidUrl(owned("Not HTTPS")));
    }
    let n = url.unicode_len();
    let rest = url.substring_char(8, n);
    let (host_port, path) = match find_char(rest, '/') {
        Some(idx) => (rest.substring_char(0, idx), owned(rest.substring_char(idx, rest.unicode_len()))),
        None => (rest, owned("/")),
    };
    match rfind_char(host_port, ':') {
        Some(idx) => {
            let port_str = host_port.substring_char(idx + 1, host_port.unicode_len());
            match parse_port(port_str) {
                Some(port) => Ok(
                    ParsedUrl { host: owned(host_port.substring_char(0, idx)), port, path },
                ),
                None => Err(NetworkError::InvalidUrl(owned("Invalid port"))),
            }
        },
        None => Ok(ParsedUrl { host: owned(host_port), port: 443, path }),
    }
}

/// The header lines of a request, each `name: value` and a line break.
pub open spec fn header_lines(hs: Seq<(Seq<char>, Seq<char>)>) -> Seq<char>
    decreases hs.len(),
{
    if hs.len() == 0 {
        seq![]
    } else {
        header_lines(hs.drop_last()) + hs.last().0 + ": "@ + hs.last().1 + "\r\n"@
    }
}

/// The text of an HTTP/1.1 request before its body.
pub open spec fn request_head(
    method: Seq<char>,
    path: Seq<char>,
    host: Seq<char>,
    hs: Seq<(Seq<char>, Seq<char>)>,
    body_len: Option<nat>,
) -> Seq<char> {
    method + " "@ + path + " HTTP/1.1\r\nHost: "@ + host + "\r\n"@ + header_lines(hs) + match body_len {
        Some(n) => "Content-Length: "@ + decimal(n) + "\r\n"@,
        None => seq![],
    } + "\r\n"@
}

/// Build an HTTP/1.1 request: the request line, the Host header, the given
/// headers, a Content-Length when there is a body, an empty line, then the
/// body, all as UTF-8 bytes.
pub fn build_http_request(
    method: &str,
    parsed: &ParsedUrl,
    headers: &[Header],
    body: Option<&[u8]>,
) -> (r: Result<Vec<u8>, NetworkError>)
    ensures
        r matches Ok(bytes) && bytes@ == encode_utf8(
            request_head(
                method@,
                parsed.path@,
                parsed.host@,
                headers_view(headers@),
                match body {
                    Some(b) => Some(b@.len()),
                    None => None,
                },
            ),
        ) + match body {
            Some(b) => b@,
            None => seq![],
        },
{
    let mut request = owned(method);
    request.append(" ");
    request.append(parsed.path.as_str());
    request.append(" HTTP/1.1\r\nHost: ");
    request.append(parsed.host.as_str());
    request.append("\r\n");
    let ghost start = request@;
    let mut i: usize = 0;
    while i < headers.len()
        invariant
            i <= headers@.len(),
            request@ == start + header_lines(headers_view(headers@.subrange(0, i as int))),
        decreases headers@.len() - i,
    {
        let ghost before = headers_view(headers@.subrange(0, i as int));
        let ghost after = headers_view(headers@.subrange(0, i + 1));
        assert(after.drop_last() =~= before);
        request.append(headers[i].0.as_str());
        request.append(": ");
        request.append(headers[i].1.as_str());
        request.append("\r\n");
        i += 1;
        assert(request@ =~= start + header_lines(after));
    }
    assert(headers@.subrange(0, headers@.len() as int) =~= headers@);
    match body {
        Some(b) => {
            request.append("Content-Length: ");
            let len = decimal_string(b.len() as u128);
            request.append(len.as_str());
            request.append("\r\n");
        },
        None => {},
    }
    request.append("\r\n");
    let ghost blen = match body {
        Some(b) => Some(b@.len()),
        None => None,
    };
    assert(request@ =~= request_head(
        method@,
        parsed.path@,
        parsed.host@,
        headers_view(headers@),
        blen,
    ));
    let mut bytes = slice_to_vec(request.as_str().as_bytes());
    match body {
        Some(b) => {
            let mut tail = slice_to_vec(b);
            bytes.append(&mut tail);
        },
        None => {},
    }
    Ok(bytes)
}

/// The identifier of the circuit issued at a time stamp.
pub open spec fn circuit_id_of(stamp: nat) -> Seq<char> {
    "circuit_"@ + hex_padded(stamp, 16)
}

/// Circuits issued at different time stamps have different identifiers.
pub proof fn lemma_circuit_ids_never_repeat(a: nat, b: nat)
    requires
        a != b,
    ensures
        circuit_id_of(a) != circuit_id_of(b),
{
    if circuit_id_of(a) == circuit_id_of(b) {
        let p = "circuit_"@;
        assert(circuit_id_of(a).subrange(p.len() as int, circuit_id_of(a).len() as int)
            =~= hex_padded(a, 16));
        assert(circuit_id_of(b).subrange(p.len() as int, circuit_id_of(b).len() as int)
            =~= hex_padded(b, 16));
        lemma_hex_padded_injective(a, b, 16);
    }
}

/// Circuits issued at increasing time stamps, as successive calls of
/// `create_circuit_at` issue them, all have identifiers of their own.
pub proof fn lemma_issued_ids_distinct(stamps: Seq<nat>)
    requires
        forall|i: int, j: int| 0 <= i < j < stamps.len() ==> stamps[i] < stamps[j],
    ensures
        forall|i: int, j: int|
            0 <= i < j < stamps.len() ==> circuit_id_of(stamps[i]) != circuit_id_of(stamps[j]),
{
    assert forall|i: int, j: int| 0 <= i < j < stamps.len() implies circuit_id_of(stamps[i])
        != circuit_id_of(stamps[j]) by {
        lemma_circuit_ids_never_repeat(stamps[i], stamps[j]);
    }
}

/// The identifier of the circuit issued at a time stamp: `circuit_`
/// followed by at least sixteen lower-case hexadecimal digits.
pub fn circuit_id_at(stamp: u128) -> (r: String)
    ensures
        r@ == circuit_id_of(stamp as nat),
{
    let mut r = owned("circuit_");
    let h = hex_string(stamp, 16);
    r.append(h.as_str());
    r
}

/// A single circuit, created for one request.
#[derive(Debug)]
pub struct Circuit {
    id: String,
}

impl Circuit {
    /// The identifier, as a character sequence.
    pub closed spec fn id_view(&self) -> Seq<char> {
        self.id@
    }

    /// Get the circuit ID.
    pub fn id(&self) -> (r: &str)
        ensures
            r@ == self.id_view(),
    {
        self.id.as_str()
    }
}

/// Issues circuits and tracks the active ones until shutdown.
pub struct CircuitManager {
    active: Vec<String>,
    stamps: Ghost<Seq<nat>>,
    last_stamp: u128,
    issued_any: bool,
}

impl CircuitManager {
    /// Identifiers of the circuits tracked as active, in order of issue.
    pub closed spec fn active_ids(&self) -> Seq<Seq<char>> {
        self.active@.map_values(|s: String| s@)
    }

    /// The time stamp of the last circuit issued, if any.
    pub closed spec fn last_issued(&self) -> Option<nat> {
        if self.issued_any {
            Some(self.last_stamp as nat)
        } else {
            None
        }
    }

    /// The time stamp of the last circuit issued (meaningful once one was).
    pub closed spec fn latest(&self) -> nat {
        self.last_stamp as nat
    }

    /// Every tracked identifier is that of a distinct time stamp, no later
    /// than the last one issued: no identifier is tracked twice.
    pub closed spec fn wf(&self) -> bool {
        &&& self.stamps@.len() == self.active@.len()
        &&& forall|i: int|
            0 <= i < self.active@.len() ==> self.active@[i]@ == circuit_id_of(
                #[trigger] self.stamps@[i],
            )
        &&& forall|i: int|
            0 <= i < self.stamps@.len() ==> self.issued_any && #[trigger] self.stamps@[i]
                <= self.last_stamp
        &&& forall|i: int, j: int|
            0 <= i < j < self.stamps@.len() ==> #[trigger] self.stamps@[i] < #[trigger] self.stamps@[j]
    }

    /// Create a new circuit manager that tracks nothing.
    pub fn new() -> (r: Self)
        ensures
            r.wf(),
            r.active_ids() == Seq::<Seq<char>>::empty(),
            r.last_issued() is None,
    {
        let r = CircuitManager { active: Vec::new(), stamps: Ghost(Seq::empty()), last_stamp: 0, issued_any: false };
        assert(r.active_ids() =~= Seq::<Seq<char>>::empty());
        r
    }

    /// No identifier is tracked twice.
    pub proof fn lemma_tracked_ids_distinct(&self)
        requires
            self.wf(),
        ensures
            forall|i: int, j: int|
                0 <= i < j < self.active_ids().len() ==> self.active_ids()[i]
                    != self.active_ids()[j],
    {
        assert forall|i: int, j: int|
            0 <= i < j < self.active_ids().len() implies self.active_ids()[i]
            != self.active_ids()[j] by {
            assert(self.stamps@[i] < self.stamps@[j]);
            lemma_circuit_ids_never_repeat(self.stamps@[i], self.stamps@[j]);
        }
    }

    /// Issue a circuit at the time stamp `now`: its stamp is `now`, or one
    /// past the last stamp issued when `now` is not later, so every circuit
    /// of this manager has a later stamp than the one before and an
    /// identifier of its own. The circuit is tracked as active. Only when
    /// the stamps are used up does this fail, with `CircuitCreationFailed`.
    pub fn create_circuit_at(&mut self, now: u128) -> (r: Result<Circuit, NetworkError>)
        requires
            old(self).wf(),
        ensures
            final(self).wf(),
            match r {
                Ok(c) => {
                    &&& final(self).last_issued() == Some(final(self).latest())
                    &&& c.id_view() == circuit_id_of(final(self).latest())
                    &&& (old(self).last_issued() is Some ==> old(self).latest() < final(self).latest())
                    &&& (old(self).last_issued() is None || old(self).latest() < now ==> final(self).latest() == now)
                    &&& !old(self).active_ids().contains(c.id_view())
                    &&& final(self).active_ids() == old(self).active_ids().push(c.id_view())
                },
                Err(e) => {
                    &&& e is CircuitCreationFailed
                    &&& final(self).active_ids() == old(self).active_ids()
                    &&& final(self).last_issued() == old(self).last_issued()
                },
            },
            r is Err <==> (old(self).last_issued() is Some && old(self).latest() == u128::MAX),
    {
        let stamp: u128;
        if !self.issued_any || now > self.last_stamp {
            stamp = now;
        } else if self.last_stamp < u128::MAX {
            stamp = self.last_stamp + 1;
        } else {
            return Err(NetworkError::CircuitCreationFailed(owned("circuit identifiers exhausted")));
        }
        let id = circuit_id_at(stamp);
        let ghost old_active = self.active_ids();
        proof {
            assert forall|i: int| 0 <= i < old_active.len() implies old_active[i] != id@ by {
                assert(self.stamps@[i] <= self.last_stamp);
                assert(old_active[i] == circuit_id_of(self.stamps@[i]));
                lemma_circuit_ids_never_repeat(self.stamps@[i], stamp as nat);
            }
        }
        self.active.push(id.clone());
        self.stamps = Ghost(self.stamps@.push(stamp as nat));
        self.last_stamp = stamp;
        self.issued_any = true;
        assert(self.active_ids() =~= old_active.push(id@));
        Ok(Circuit { id })
    }

    /// Create a new circuit for a request, stamped with the current time.
    pub fn create_new_circuit(&mut self) -> (r: Result<Circuit, NetworkError>)
        requires
            old(self).wf(),
        ensures
            final(self).wf(),
            match r {
                Ok(c) => {
                    &&& final(self).last_issued() == Some(final(self).latest())
                    &&& c.id_view() == circuit_id_of(final(self).latest())
                    &&& (old(self).last_issued() is Some ==> old(self).latest() < final(self).latest())
                    &&& !old(self).active_ids().contains(c.id_view())
                    &&& final(self).active_ids() == old(self).active_ids().push(c.id_view())
                },
                Err(e) => {
                    &&& e is CircuitCreationFailed
                    &&& final(self).active_ids() == old(self).active_ids()
                    &&& final(self).last_issued() == old(self).last_issued()
                },
            },
            r is Err <==> (old(self).last_issued() is Some && old(self).latest() == u128::MAX),
    {
        let now = crate::tor_integration::unix_nanos();
        self.create_circuit_at(now)
    }

    /// Stop tracking every active circuit and hand their identifiers over,
    /// in order of issue, for a best-effort close. Stamps keep increasing
    /// across this call.
    pub fn close_all(&mut self) -> (r: Vec<String>)
        requires
            old(self).wf(),
        ensures
            final(self).wf(),
            r@.map_values(|s: String| s@) == old(self).active_ids(),
            final(self).active_ids() == Seq::<Seq<char>>::empty(),
            final(self).last_issued() == old(self).last_issued(),
    {
        let mut drained: Vec<String> = Vec::new();
        std::mem::swap(&mut drained, &mut self.active);
        self.stamps = Ghost(Seq::empty());
        assert(self.active_ids() =~= Seq::<Seq<char>>::empty());
        drained
    }
}

} // verus!
