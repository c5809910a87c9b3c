//! The per-request anonymization pipeline: configuration, the typed result
//! and error of a request, response sanitization, and the decisions that
//! sequence one request.

use crate::circuit::{Circuit, RawResponse};
use crate::headers::{
    Header, HeaderSynthesizer, SyntheticHeaders, accept_encoding, accept_html, accept_language,
    copy_header, header_list, headers_view, normalize_header_order, normalized,
    strip_dangerous, strip_dangerous_headers, user_agents,
};
use crate::tls_fingerprint::{TlsConfig, TlsFingerprintNormalizer, is_profile};
use crate::traffic_shaper::TrafficShaper;
use vstd::slice::slice_to_vec;
use crate::text::{
    find_char, first_index, has_char, has_prefix, join2, lower_of, lowercase, owned, str_eq,
    starts_with,
};
use core::time::Duration;
use vstd::prelude::*;
use vstd::string::*;

verus! {

broadcast use vstd::seq_lib::group_filter_ensures;

/// Relies on `Duration::from_secs`: a duration of whole seconds.
pub assume_specification[ core::time::Duration::from_secs ](secs: u64) -> Duration;

/// Relies on `Clone` of `Duration`, a `Copy` type: the copy is the same value.
pub assume_specification[ <core::time::Duration as Clone>::clone ](d: &Duration) -> (r: Duration)
    ensures
        r == *d,
;

/// Network layer configuration: compiled-in values with no runtime override.
#[derive(Debug, Clone)]
pub struct NetworkConfig {
    /// Minimum padding bytes per request
    pub min_padding_bytes: usize,
    /// Maximum padding bytes per request
    pub max_padding_bytes: usize,
    /// Minimum jitter delay
    pub min_jitter_ms: u64,
    /// Maximum jitter delay
    pub max_jitter_ms: u64,
    /// SOCKS5 port of the embedded transport
    pub tor_socks_port: u16,
    /// Control port of the embedded transport
    pub tor_control_port: u16,
    /// Request timeout
    pub request_timeout: Duration,
    /// Force new circuit per request
    pub new_circuit_per_request: bool,
}

impl Default for NetworkConfig {
    fn default() -> (r: Self)
        ensures
            r.min_padding_bytes == 256,
            r.max_padding_bytes == 2048,
            r.min_jitter_ms == 0,
            r.max_jitter_ms == 50,
            r.tor_socks_port == 9150,
            r.tor_control_port == 9151,
            r.new_circuit_per_request,
    {
        NetworkConfig {
            min_padding_bytes: 256,
            max_padding_bytes: 2048,
            min_jitter_ms: 0,
            max_jitter_ms: 50,
            tor_socks_port: 9150,
            tor_control_port: 9151,
            request_timeout: Duration::from_secs(60),
            new_circuit_per_request: true,
        }
    }
}

/// Result of a network request.
#[derive(Debug)]
pub struct NetworkResponse {
    /// HTTP status code
    pub status: u16,
    /// Response headers (sanitized)
    pub headers: Vec<Header>,
    /// Response body
    pub body: Vec<u8>,
    /// Circuit ID used (for diagnostics, never exposed to content)
    pub circuit_id: String,
}

/// Errors that can occur in the network layer.
#[derive(Debug)]
pub enum NetworkError {
    /// Transport daemon unreachable
    TorConnectionFailed(String),
    /// Circuit creation failed
    CircuitCreationFailed(String),
    /// Request failed
    RequestFailed(String),
    /// Timeout
    Timeout,
    /// TLS error
    TlsError(String),
    /// DNS resolution failed
    DnsError(String),
    /// Invalid URL
    InvalidUrl(String),
    /// Protocol not supported (only HTTPS)
    ProtocolNotSupported(String),
}

/// The human-readable message of an error.
pub open spec fn error_message(e: NetworkError) -> Seq<char> {
    match e {
        NetworkError::TorConnectionFailed(s) => "Tor connection failed: "@ + s@,
        NetworkError::CircuitCreationFailed(s) => "Circuit creation failed: "@ + s@,
        NetworkError::RequestFailed(s) => "Request failed: "@ + s@,
        NetworkError::Timeout => "Request timed out"@,
        NetworkError::TlsError(s) => "TLS error: "@ + s@,
        NetworkError::DnsError(s) => "DNS resolution failed: "@ + s@,
        NetworkError::InvalidUrl(s) => "Invalid URL: "@ + s@,
        NetworkError::ProtocolNotSupported(s) => "Protocol not supported: "@ + s@
            + " (only HTTPS allowed)"@,
    }
}

impl NetworkError {
    /// The human-readable message of this error.
    pub fn message(&self) -> (r: String)
        ensures
            r@ == error_message(*self),
    {
        match self {
            NetworkError::TorConnectionFailed(s) => join2("Tor connection failed: ", s.as_str()),
            NetworkError::CircuitCreationFailed(s) => join2(
                "Circuit creation failed: ",
                s.as_str(),
            ),
            NetworkError::RequestFailed(s) => join2("Request failed: ", s.as_str()),
            NetworkError::Timeout => owned("Request timed out"),
            NetworkError::TlsError(s) => join2("TLS error: ", s.as_str()),
            NetworkError::DnsError(s) => join2("DNS resolution failed: ", s.as_str()),
            NetworkError::InvalidUrl(s) => join2("Invalid URL: ", s.as_str()),
            NetworkError::ProtocolNotSupported(s) => {
                let mut r = join2("Protocol not supported: ", s.as_str());
                r.append(" (only HTTPS allowed)");
                r
            },
        }
    }
}

/// Information about the current circuit (for display only).
#[derive(Debug, Clone)]
pub struct CircuitInfo {
    /// Entry node country code
    pub entry_country: String,
    /// Exit node country code
    pub exit_country: String,
    /// Number of hops
    pub hop_count: usize,
}

/// The lower-case names of response headers that track or correlate.
pub open spec fn is_tracking_lower(n: Seq<char>) -> bool {
    n == "set-cookie"@ || n == "set-cookie2"@ || n == "etag"@ || n == "last-modified"@
        || n == "x-request-id"@ || n == "x-correlation-id"@ || n == "x-amzn-requestid"@
        || n == "cf-ray"@ || n == "x-cache"@ || n == "x-served-by"@ || n == "x-timer"@
        || n == "x-trace-id"@
}

/// Whether a response header is kept.
pub open spec fn keeps_response_header() -> spec_fn(Header) -> bool {
    |h: Header| !is_tracking_lower(lower_of(h.0@))
}

/// Response headers with every tracking header removed, order kept.
pub open spec fn sanitized(s: Seq<Header>) -> Seq<Header> {
    s.filter(keeps_response_header())
}

/// Whether a lower-case response header name tracks or correlates.
pub fn is_tracking_name(lower: &str) -> (r: bool)
    ensures
        r == is_tracking_lower(lower@),
{
    str_eq(lower, "set-cookie") || str_eq(lower, "set-cookie2") || str_eq(lower, "etag")
        || str_eq(lower, "last-modified") || str_eq(lower, "x-request-id") || str_eq(
        lower,
        "x-correlation-id",
    ) || str_eq(lower, "x-amzn-requestid") || str_eq(lower, "cf-ray") || str_eq(lower, "x-cache")
        || str_eq(lower, "x-served-by") || str_eq(lower, "x-timer") || str_eq(lower, "x-trace-id")
}

/// Sanitize response headers: remove, ignoring case, cookies, entity tags,
/// modification dates and request, trace and routing identifiers; the
/// others keep their order.
pub fn sanitize_response_headers(headers: Vec<Header>) -> (r: Vec<Header>)
    ensures
        r@ == sanitized(headers@),
{
    let mut out: Vec<Header> = Vec::new();
    let n = headers.len();
    let mut i: usize = 0;
    while i < n
        invariant
            n == headers@.len(),
            i <= n,
            out@ == headers@.subrange(0, i as int).filter(keeps_response_header()),
        decreases n - i,
    {
        let name = headers[i].0.as_str();
        let lower = lowercase(name);
        let tracking = is_tracking_name(lower.as_str());
        assert(tracking == !keeps_response_header()(headers@[i as int]));
        proof {
            reveal(Seq::filter);
            assert(headers@.subrange(0, i + 1).drop_last() =~= headers@.subrange(0, i as int));
            assert(headers@.subrange(0, i + 1).last() == headers@[i as int]);
        }
        if !tracking {
            out.push(copy_header(&headers[i]));
        }
        i += 1;
    }
    assert(headers@.subrange(0, n as int) =~= headers@);
    out
}

/// Whether a URL uses the required secure scheme.
pub open spec fn is_secure_url(url: Seq<char>) -> bool {
    has_prefix(url, "https://"@)
}

/// The part of a URL before its first colon, or all of it.
pub open spec fn scheme_of(url: Seq<char>) -> Seq<char> {
    if has_char(url, ':') {
        url.subrange(0, first_index(url, ':'))
    } else {
        url
    }
}

/// The scheme of a URL: what comes before its first colon, or all of it.
pub fn scheme_of_url(url: &str) -> (r: String)
    ensures
        r@ == scheme_of(url@),
{
    match find_char(url, ':') {
        Some(i) => owned(url.substring_char(0, i)),
        None => owned(url),
    }
}

/// Step 1 of a request: a URL without the secure scheme is refused with
/// `ProtocolNotSupported`, naming its scheme, before any other work.
pub fn validate_url(url: &str) -> (r: Result<(), NetworkError>)
    ensures
        is_secure_url(url@) <==> r is Ok,
        r matches Err(e) ==> e matches NetworkError::ProtocolNotSupported(s) && s@ == scheme_of(
            url@,
        ),
{
    if starts_with(url, "https://") {
        Ok(())
    } else {
        Err(NetworkError::ProtocolNotSupported(scheme_of_url(url)))
    }
}

/// The request headers prepared from a synthetic set: its list, with
/// forbidden headers stripped, in canonical order.
pub open spec fn prepared_from(hs: Seq<Header>, h: SyntheticHeaders) -> bool {
    exists|l: Seq<Header>| headers_view(l) == header_list(h) && hs == normalized(strip_dangerous(l))
}

/// Step 4 of a request: the synthetic headers as a list, then stripped of
/// forbidden headers, then put in canonical order, in that order.
pub fn prepare_request_headers(h: &SyntheticHeaders) -> (r: Vec<Header>)
    ensures
        prepared_from(r@, *h),
{
    let mut list = h.to_vec();
    let ghost l = list@;
    strip_dangerous_headers(&mut list);
    normalize_header_order(&mut list);
    assert(headers_view(l) == header_list(*h) && list@ == normalized(strip_dangerous(l)));
    list
}

/// The stages of one request. Each stage waits for the caller to report
/// the outcome of the action that led into it.
#[derive(Debug, Clone, Copy, PartialEq, Eq, Structural)]
pub enum PipelineState {
    /// Not started: the URL is not checked yet.
    Validating,
    /// Waiting for the jitter before the request.
    Jittering,
    /// Waiting for a fresh circuit.
    CircuitPending,
    /// Headers are built and the request is out on its circuit.
    InFlight,
    /// The sanitized response is held while the jitter after it runs.
    Completing,
    /// The response was returned.
    Success,
    /// An error was returned.
    Failed,
}

/// What the caller reports after carrying out an action.
pub enum PipelineEvent {
    /// The jitter delay has elapsed.
    JitterElapsed,
    /// A circuit was opened for this request.
    CircuitOpened(Circuit),
    /// No circuit could be opened; the transport's reason.
    CircuitFailed(String),
    /// The transport returned a response.
    ResponseReceived(RawResponse),
    /// The transport failed: `Timeout`, `RequestFailed`, `TlsError` or `DnsError`.
    TransportFailed(NetworkError),
}

/// The request to issue on a circuit within the configured timeout.
pub struct OutboundRequest {
    /// HTTP method
    pub method: String,
    /// Target URL
    pub url: String,
    /// Prepared request headers
    pub headers: Vec<Header>,
    /// Request body, if any
    pub body: Option<Vec<u8>>,
    /// How many padding bytes the transport layer adds
    pub padding: usize,
    /// Normalized TLS profile
    pub tls: TlsConfig,
    /// Identifier of the circuit to use
    pub circuit_id: String,
}

/// What the caller must do next.
pub enum PipelineAction {
    /// Wait for one jitter delay of the traffic shaper, then report
    /// `JitterElapsed`.
    Jitter,
    /// Ask the circuit manager for a new circuit.
    OpenCircuit,
    /// Issue this request and report the response or the failure.
    Send(OutboundRequest),
    /// The request is over: return this to the caller and close its circuit.
    Finish(Result<NetworkResponse, NetworkError>),
    /// The event does not apply in this stage.
    Nothing,
}

/// The kinds of events, without their data.
#[derive(Debug, Clone, Copy, PartialEq, Eq, Structural)]
pub enum EventKind {
    /// `JitterElapsed`
    JitterElapsed,
    /// `CircuitOpened`
    CircuitOpened,
    /// `CircuitFailed`
    CircuitFailed,
    /// `ResponseReceived`
    ResponseReceived,
    /// `TransportFailed`
    TransportFailed,
}

/// The kinds of actions, without their data.
#[derive(Debug, Clone, Copy, PartialEq, Eq, Structural)]
pub enum ActionKind {
    /// `Jitter`
    Jitter,
    /// `OpenCircuit`
    OpenCircuit,
    /// `Send`
    Send,
    /// `Finish`
    Finish,
    /// `Nothing`
    Nothing,
}

/// The kind of an event.
pub open spec fn event_kind(e: PipelineEvent) -> EventKind {
    match e {
        PipelineEvent::JitterElapsed => EventKind::JitterElapsed,
        PipelineEvent::CircuitOpened(_) => EventKind::CircuitOpened,
        PipelineEvent::CircuitFailed(_) => EventKind::CircuitFailed,
        PipelineEvent::ResponseReceived(_) => EventKind::ResponseReceived,
        PipelineEvent::TransportFailed(_) => EventKind::TransportFailed,
    }
}

/// The kind of an action.
pub open spec fn action_kind(a: PipelineAction) -> ActionKind {
    match a {
        PipelineAction::Jitter => ActionKind::Jitter,
        PipelineAction::OpenCircuit => ActionKind::OpenCircuit,
        PipelineAction::Send(_) => ActionKind::Send,
        PipelineAction::Finish(_) => ActionKind::Finish,
        PipelineAction::Nothing => ActionKind::Nothing,
    }
}

/// The stage a request enters when it starts, and the first action.
pub open spec fn begin_step(url: Seq<char>) -> (PipelineState, ActionKind) {
    if is_secure_url(url) {
        (PipelineState::Jittering, ActionKind::Jitter)
    } else {
        (PipelineState::Failed, ActionKind::Finish)
    }
}

/// The transition of a stage on an event: the next stage and the action.
/// Events that do not apply leave the stage as it is.
pub open spec fn step(s: PipelineState, e: EventKind) -> (PipelineState, ActionKind) {
    match (s, e) {
        (PipelineState::Jittering, EventKind::JitterElapsed) => (
            PipelineState::CircuitPending,
            ActionKind::OpenCircuit,
        ),
        (PipelineState::CircuitPending, EventKind::CircuitOpened) => (
            PipelineState::InFlight,
            ActionKind::Send,
        ),
        (PipelineState::CircuitPending, EventKind::CircuitFailed) => (
            PipelineState::Failed,
            ActionKind::Finish,
        ),
        (PipelineState::InFlight, EventKind::ResponseReceived) => (
            PipelineState::Completing,
            ActionKind::Jitter,
        ),
        (PipelineState::InFlight, EventKind::TransportFailed) => (
            PipelineState::Failed,
            ActionKind::Finish,
        ),
        (PipelineState::Completing, EventKind::JitterElapsed) => (
            PipelineState::Success,
            ActionKind::Finish,
        ),
        _ => (s, ActionKind::Nothing),
    }
}

/// Whether some event of the sequence, handled from stage `s` on, leads to
/// an `OpenCircuit` action.
pub open spec fn opens_circuit(s: PipelineState, events: Seq<EventKind>) -> bool
    decreases events.len(),
{
    if events.len() == 0 {
        false
    } else {
        step(s, events[0]).1 == ActionKind::OpenCircuit || opens_circuit(
            step(s, events[0]).0,
            events.drop_first(),
        )
    }
}

/// A request whose URL lacks the secure scheme ends at once with an error,
/// and no later event makes it open a circuit.
pub proof fn lemma_insecure_url_opens_no_circuit(url: Seq<char>, events: Seq<EventKind>)
    requires
        !is_secure_url(url),
    ensures
        begin_step(url) == (PipelineState::Failed, ActionKind::Finish),
        !opens_circuit(begin_step(url).0, events),
    decreases events.len(),
{
    if events.len() > 0 {
        lemma_insecure_url_opens_no_circuit(url, events.drop_first());
    }
}

/// One request: the decisions that sequence it. The caller performs each
/// action and reports its outcome as an event.
pub struct RequestPipeline {
    state: PipelineState,
    method: String,
    url: String,
    body: Option<Vec<u8>>,
    circuit: Option<Circuit>,
    response: Option<NetworkResponse>,
}

/// Whether two optional bodies hold the same bytes.
pub open spec fn same_body(a: Option<Vec<u8>>, b: Option<Vec<u8>>) -> bool {
    match (a, b) {
        (Some(x), Some(y)) => x@ == y@,
        (None, None) => true,
        _ => false,
    }
}

/// Whether an optional body holds the bytes of an optional slice.
pub open spec fn body_of(a: Option<Vec<u8>>, b: Option<&[u8]>) -> bool {
    match (a, b) {
        (Some(x), Some(y)) => x@ == y@,
        (None, None) => true,
        _ => false,
    }
}

/// Whether a response is the raw one with sanitized headers, on a circuit.
pub open spec fn response_from(
    resp: NetworkResponse,
    raw: RawResponse,
    circuit: Option<Seq<char>>,
) -> bool {
    &&& resp.status == raw.status
    &&& resp.headers@ == sanitized(raw.headers@)
    &&& resp.body@ == raw.body@
    &&& circuit == Some(resp.circuit_id@)
}

impl RequestPipeline {
    /// The current stage.
    pub closed spec fn state(&self) -> PipelineState {
        self.state
    }

    /// The URL requested.
    pub closed spec fn url_view(&self) -> Seq<char> {
        self.url@
    }

    /// The method requested.
    pub closed spec fn method_view(&self) -> Seq<char> {
        self.method@
    }

    /// The body of the request, until it is sent.
    pub closed spec fn body(&self) -> Option<Vec<u8>> {
        self.body
    }

    /// The response held while the jitter after it runs.
    pub closed spec fn held(&self) -> Option<NetworkResponse> {
        self.response
    }

    /// A circuit is held from the moment it opened, and a response exactly
    /// in the `Completing` stage.
    pub closed spec fn wf(&self) -> bool {
        &&& (self.state == PipelineState::InFlight || self.state == PipelineState::Completing)
            ==> self.circuit is Some
        &&& (self.state == PipelineState::Completing <==> self.response is Some)
    }

    /// The identifier of the request's circuit, once it has one.
    pub closed spec fn circuit_view(&self) -> Option<Seq<char>> {
        match self.circuit {
            Some(c) => Some(c.id_view()),
            None => None,
        }
    }

    /// The identifier of the circuit this request opened, to be closed once
    /// the request is over, whatever its outcome; none while no circuit was
    /// opened.
    pub fn circuit_to_close(&self) -> (r: Option<&str>)
        ensures
            match (r, self.circuit_view()) {
                (Some(id), Some(v)) => id@ == v,
                (None, None) => true,
                _ => false,
            },
    {
        match &self.circuit {
            Some(c) => Some(c.id()),
            None => None,
        }
    }

    /// A request in the `Validating` stage.
    pub fn new(method: &str, url: &str, body: Option<&[u8]>) -> (r: Self)
        ensures
            r.state() == PipelineState::Validating,
            r.method_view() == method@,
            r.url_view() == url@,
            body_of(r.body(), body),
            r.circuit_view() is None,
            r.wf(),
    {
        let body = match body {
            Some(b) => Some(slice_to_vec(b)),
            None => None,
        };
        RequestPipeline {
            state: PipelineState::Validating,
            method: owned(method),
            url: owned(url),
            body,
            circuit: None,
            response: None,
        }
    }

    /// Step 1: check the URL. A URL without the secure scheme finishes the
    /// request with `ProtocolNotSupported` before any circuit or network
    /// work; otherwise the jitter before the request comes next.
    pub fn begin(&mut self) -> (r: PipelineAction)
        requires
            old(self).state() == PipelineState::Validating,
            old(self).wf(),
        ensures
            final(self).wf(),
            (final(self).state(), action_kind(r)) == begin_step(old(self).url_view()),
            r matches PipelineAction::Finish(res) ==> res matches Err(
                NetworkError::ProtocolNotSupported(s),
            ) && s@ == scheme_of(old(self).url_view()),
            final(self).url_view() == old(self).url_view(),
            final(self).method_view() == old(self).method_view(),
            final(self).body() == old(self).body(),
            final(self).circuit_view() == old(self).circuit_view(),
    {
        match validate_url(self.url.as_str()) {
            Ok(()) => {
                self.state = PipelineState::Jittering;
                PipelineAction::Jitter
            },
            Err(e) => {
                self.state = PipelineState::Failed;
                PipelineAction::Finish(Err(e))
            },
        }
    }

    /// Handle the outcome of the last action: the next stage follows
    /// `step`. Once a circuit is open, the request headers are synthesized,
    /// sanitized and ordered, the body is padded and the TLS profile is
    /// attached; a response is sanitized before it is held; a circuit
    /// failure becomes `CircuitCreationFailed`; a transport failure is
    /// returned as it came.
    pub fn on_event(
        &mut self,
        event: PipelineEvent,
        synthesizer: &HeaderSynthesizer,
        shaper: &TrafficShaper,
        tls: &TlsFingerprintNormalizer,
    ) -> (r: PipelineAction)
        requires
            tls.wf(),
            shaper.min_padding() <= shaper.max_padding(),
            old(self).wf(),
        ensures
            final(self).wf(),
            (final(self).state(), action_kind(r)) == step(old(self).state(), event_kind(event)),
            final(self).url_view() == old(self).url_view(),
            final(self).method_view() == old(self).method_view(),
            r matches PipelineAction::Send(req) ==> {
                &&& event matches PipelineEvent::CircuitOpened(c) && req.circuit_id@ == c.id_view()
                    && final(self).circuit_view() == Some(c.id_view())
                &&& req.method@ == old(self).method_view()
                &&& req.url@ == old(self).url_view()
                &&& exists|h: SyntheticHeaders|
                    {
                        &&& user_agents().contains(h.user_agent@)
                        &&& h.accept@ == accept_html()
                        &&& h.accept_language@ == accept_language()
                        &&& h.accept_encoding@ == accept_encoding()
                        &&& prepared_from(req.headers@, h)
                    }
                &&& same_body(req.body, old(self).body())
                &&& shaper.min_padding() <= req.padding <= shaper.max_padding()
                &&& is_profile(req.tls)
            },
            r matches PipelineAction::Finish(res) ==> match res {
                Ok(resp) => {
                    &&& old(self).state() == PipelineState::Completing
                    &&& old(self).held() == Some(resp)
                },
                Err(e) => match event {
                    PipelineEvent::CircuitFailed(m) => e matches NetworkError::CircuitCreationFailed(
                        s,
                    ) && s@ == m@,
                    PipelineEvent::TransportFailed(t) => e == t,
                    _ => false,
                },
            },
            match event {
                PipelineEvent::ResponseReceived(raw) => old(self).state()
                    == PipelineState::InFlight ==> (final(self).held() matches Some(resp)
                    && response_from(resp, raw, old(self).circuit_view())),
                _ => true,
            },
            old(self).state() != PipelineState::CircuitPending ==> final(self).circuit_view()
                == old(self).circuit_view(),
            !(event is CircuitOpened) ==> final(self).circuit_view() == old(self).circuit_view(),
    {
        match (self.state, event) {
            (PipelineState::Jittering, PipelineEvent::JitterElapsed) => {
                self.state = PipelineState::CircuitPending;
                PipelineAction::OpenCircuit
            },
            (PipelineState::CircuitPending, PipelineEvent::CircuitOpened(circuit)) => {
                let synthetic = synthesizer.generate();
                let headers = prepare_request_headers(&synthetic);
                let mut taken: Option<Vec<u8>> = None;
                std::mem::swap(&mut taken, &mut self.body);
                let body = match taken {
                    Some(b) => Some(shaper.pad_request(b.as_slice())),
                    None => None,
                };
                let padding = shaper.padding_length();
                let tls_config = match tls.create_config() {
                    Ok(c) => c,
                    Err(_) => {
                        return PipelineAction::Nothing;
                    },
                };
                let circuit_id = owned(circuit.id());
                self.circuit = Some(circuit);
                self.state = PipelineState::InFlight;
                let req = OutboundRequest {
                    method: self.method.clone(),
                    url: self.url.clone(),
                    headers,
                    body,
                    padding,
                    tls: tls_config,
                    circuit_id,
                };
                assert(prepared_from(req.headers@, synthetic));
                assert(same_body(req.body, old(self).body()));
                PipelineAction::Send(req)
            },
            (PipelineState::CircuitPending, PipelineEvent::CircuitFailed(reason)) => {
                self.state = PipelineState::Failed;
                PipelineAction::Finish(Err(NetworkError::CircuitCreationFailed(reason)))
            },
            (PipelineState::InFlight, PipelineEvent::ResponseReceived(raw)) => {
                let id = match &self.circuit {
                    Some(c) => owned(c.id()),
                    None => String::new(),
                };
                self.response = Some(
                    NetworkResponse {
                        status: raw.status,
                        headers: sanitize_response_headers(raw.headers),
                        body: raw.body,
                        circuit_id: id,
                    },
                );
                self.state = PipelineState::Completing;
                PipelineAction::Jitter
            },
            (PipelineState::InFlight, PipelineEvent::TransportFailed(e)) => {
                self.state = PipelineState::Failed;
                PipelineAction::Finish(Err(e))
            },
            (PipelineState::Completing, PipelineEvent::JitterElapsed) => {
                let mut held: Option<NetworkResponse> = None;
                std::mem::swap(&mut held, &mut self.response);
                match held {
                    Some(resp) => {
                        self.state = PipelineState::Success;
                        PipelineAction::Finish(Ok(resp))
                    },
                    None => PipelineAction::Nothing,
                }
            },
            _ => PipelineAction::Nothing,
        }
    }
}

} // verus!
