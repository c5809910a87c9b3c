use forloop::circuit::{build_http_request, parse_url, CircuitManager, ParsedUrl, RawResponse};
use forloop::headers::{
    canonical_rank, is_forbidden_name, normalize_header_order, strip_dangerous_headers,
    HeaderSynthesizer, SyntheticHeaders,
};
use forloop::network::{
    is_tracking_name, prepare_request_headers, sanitize_response_headers, scheme_of_url, validate_url, NetworkConfig,
    NetworkError, PipelineAction, PipelineEvent, RequestPipeline,
};
use forloop::tls_fingerprint::{Http2Fingerprint, TlsFingerprintNormalizer, TlsVersion};
use forloop::tor_integration::{generate_circuit_id, TorConfig};
use forloop::traffic_shaper::{normalize_size, PaddingGenerator, TrafficShaper};

fn pair(a: &str, b: &str) -> (String, String) {
    (a.to_string(), b.to_string())
}

#[test]
fn test_parse_url_simple() {
    let parsed = parse_url("https://example.com/path").unwrap();
    assert_eq!(parsed.host, "example.com");
    assert_eq!(parsed.port, 443);
    assert_eq!(parsed.path, "/path");
}

#[test]
fn test_parse_url_with_port() {
    let parsed = parse_url("https://example.com:8443/path").unwrap();
    assert_eq!(parsed.host, "example.com");
    assert_eq!(parsed.port, 8443);
    assert_eq!(parsed.path, "/path");
}

#[test]
fn test_parse_url_no_path() {
    let parsed = parse_url("https://example.com").unwrap();
    assert_eq!(parsed.host, "example.com");
    assert_eq!(parsed.port, 443);
    assert_eq!(parsed.path, "/");
}

#[test]
fn test_parse_url_rejects_http() {
    let result = parse_url("http://example.com");
    assert!(result.is_err());
}

#[test]
fn parse_url_error_messages() {
    match parse_url("http://example.com") {
        Err(NetworkError::InvalidUrl(m)) => assert_eq!(m, "Not HTTPS"),
        other => panic!("unexpected {:?}", other),
    }
    match parse_url("https://example.com:99999/x") {
        Err(NetworkError::InvalidUrl(m)) => assert_eq!(m, "Invalid port"),
        other => panic!("unexpected {:?}", other),
    }
    match parse_url("https://example.com:/x") {
        Err(NetworkError::InvalidUrl(m)) => assert_eq!(m, "Invalid port"),
        other => panic!("unexpected {:?}", other),
    }
    let p = parse_url("https://[::1]:+8080").unwrap();
    assert_eq!(p.host, "[::1]");
    assert_eq!(p.port, 8080);
    assert_eq!(p.path, "/");
    let p = parse_url("https://h:65535/a/b:c").unwrap();
    assert_eq!(p.port, 65535);
    assert_eq!(p.path, "/a/b:c");
}

#[test]
fn test_build_http_request() {
    let parsed = ParsedUrl {
        host: "example.com".to_string(),
        port: 443,
        path: "/test".to_string(),
    };
    let headers = vec![("User-Agent".to_string(), "Test/1.0".to_string())];

    let request = build_http_request("GET", &parsed, &headers, None).unwrap();
    let request_str = String::from_utf8(request).unwrap();

    assert!(request_str.contains("GET /test HTTP/1.1"));
    assert!(request_str.contains("Host: example.com"));
    assert!(request_str.contains("User-Agent: Test/1.0"));
}

#[test]
fn build_http_request_exact_bytes_with_body() {
    let parsed = ParsedUrl {
        host: "h.test".to_string(),
        port: 443,
        path: "/p".to_string(),
    };
    let headers = vec![pair("A", "1"), pair("B", "2")];
    let body = b"hello".to_vec();
    let request = build_http_request("POST", &parsed, &headers, Some(&body)).unwrap();
    assert_eq!(
        request,
        b"POST /p HTTP/1.1\r\nHost: h.test\r\nA: 1\r\nB: 2\r\nContent-Length: 5\r\n\r\nhello".to_vec()
    );
}

#[test]
fn test_dangerous_header_stripping() {
    let mut headers = vec![
        ("User-Agent".to_string(), "Test".to_string()),
        ("Cookie".to_string(), "bad=tracking".to_string()),
        ("Referer".to_string(), "https://previous.site".to_string()),
        ("Accept".to_string(), "text/html".to_string()),
    ];

    strip_dangerous_headers(&mut headers);

    assert_eq!(headers.len(), 2);
    assert!(headers.iter().any(|(n, _)| n == "User-Agent"));
    assert!(headers.iter().any(|(n, _)| n == "Accept"));
    assert!(!headers.iter().any(|(n, _)| n.to_lowercase() == "cookie"));
    assert!(!headers.iter().any(|(n, _)| n.to_lowercase() == "referer"));
}

#[test]
fn strip_removes_every_forbidden_name_in_any_case() {
    let names = [
        "COOKIE", "Authorization", "proxy-AUTHORIZATION", "X-Forwarded-For", "x-real-ip",
        "X-Client-IP", "Forwarded", "VIA", "X-Request-Id", "x-correlation-id", "DNT", "Referer",
        "Origin",
    ];
    let mut headers: Vec<(String, String)> = names.iter().map(|n| pair(n, "v")).collect();
    headers.insert(3, pair("Accept", "a"));
    headers.push(pair("X-Custom", "c"));
    strip_dangerous_headers(&mut headers);
    assert_eq!(headers, vec![pair("Accept", "a"), pair("X-Custom", "c")]);
    let once = headers.clone();
    strip_dangerous_headers(&mut headers);
    assert_eq!(headers, once);
}

#[test]
fn test_header_order_normalization() {
    let mut headers = vec![
        ("Accept".to_string(), "text/html".to_string()),
        ("Host".to_string(), "example.com".to_string()),
        ("User-Agent".to_string(), "Test".to_string()),
    ];

    normalize_header_order(&mut headers);

    assert_eq!(headers[0].0, "Host");
    assert_eq!(headers[1].0, "User-Agent");
    assert_eq!(headers[2].0, "Accept");
}

#[test]
fn normalize_order_is_stable_and_idempotent() {
    let mut headers = vec![
        pair("X-B", "1"),
        pair("content-length", "2"),
        pair("X-A", "3"),
        pair("HOST", "4"),
        pair("Accept", "5"),
        pair("accept", "6"),
    ];
    normalize_header_order(&mut headers);
    assert_eq!(
        headers,
        vec![
            pair("HOST", "4"),
            pair("Accept", "5"),
            pair("accept", "6"),
            pair("content-length", "2"),
            pair("X-B", "1"),
            pair("X-A", "3"),
        ]
    );
    let once = headers.clone();
    normalize_header_order(&mut headers);
    assert_eq!(headers, once);
}

#[test]
fn test_synthesizer_creates_valid_headers() {
    let synth = HeaderSynthesizer::new();
    let headers = synth.generate();

    assert!(!headers.user_agent.is_empty());
    assert!(headers.user_agent.contains("Firefox"));
    assert!(headers.accept_language.starts_with("en"));
}

#[test]
fn synthesized_headers_come_from_the_anonymity_set() {
    let synth = HeaderSynthesizer::new();
    let known = [
        "Mozilla/5.0 (Windows NT 10.0; rv:115.0) Gecko/20100101 Firefox/115.0",
        "Mozilla/5.0 (X11; Linux x86_64; rv:115.0) Gecko/20100101 Firefox/115.0",
        "Mozilla/5.0 (Macintosh; Intel Mac OS X 10.15; rv:115.0) Gecko/20100101 Firefox/115.0",
    ];
    for _ in 0..50 {
        let h = synth.generate();
        assert!(known.contains(&h.user_agent.as_str()));
        assert_eq!(h.accept_language, "en-US,en;q=0.5");
        assert_eq!(h.accept_encoding, "gzip, deflate, br");
    }
    let image = synth.generate_for_image();
    assert_eq!(image.accept, "image/avif,image/webp,*/*");
    let chosen = synth.generate_with_choice(1);
    assert_eq!(chosen.user_agent, known[1]);
}

#[test]
fn prepared_headers_are_ordered_and_complete() {
    let h = SyntheticHeaders {
        user_agent: "UA".to_string(),
        accept: "A".to_string(),
        accept_language: "L".to_string(),
        accept_encoding: "E".to_string(),
    };
    assert_eq!(h.to_vec().len(), 10);
    let prepared = prepare_request_headers(&h);
    let names: Vec<&str> = prepared.iter().map(|(n, _)| n.as_str()).collect();
    assert_eq!(
        names,
        vec![
            "User-Agent",
            "Accept",
            "Accept-Language",
            "Accept-Encoding",
            "Connection",
            "Upgrade-Insecure-Requests",
            "Sec-Fetch-Dest",
            "Sec-Fetch-Mode",
            "Sec-Fetch-Site",
            "Sec-Fetch-User",
        ]
    );
}

#[test]
fn test_rejects_http() {
    let url = "http://example.com";
    assert!(validate_url(url).is_err());
}

#[test]
fn test_accepts_https() {
    let url = "https://example.com";
    assert!(validate_url(url).is_ok());
}

#[test]
fn insecure_scheme_names_the_scheme() {
    match validate_url("http://example.com") {
        Err(NetworkError::ProtocolNotSupported(s)) => assert_eq!(s, "http"),
        other => panic!("unexpected {:?}", other),
    }
    assert_eq!(scheme_of_url("ftp://x"), "ftp");
    assert_eq!(scheme_of_url("no-colon"), "no-colon");
}

#[test]
fn test_sanitize_headers() {
    let headers = vec![
        ("content-type".to_string(), "text/html".to_string()),
        ("set-cookie".to_string(), "tracking=bad".to_string()),
        ("etag".to_string(), "\"abc123\"".to_string()),
        ("content-length".to_string(), "1234".to_string()),
    ];

    let sanitized = sanitize_response_headers(headers);

    assert_eq!(sanitized.len(), 2);
    assert!(sanitized.iter().any(|(n, _)| n == "content-type"));
    assert!(sanitized.iter().any(|(n, _)| n == "content-length"));
}

#[test]
fn sanitize_response_scenario_keeps_only_content_type() {
    let headers = vec![
        pair("set-cookie", "a=b"),
        pair("etag", "\"x\""),
        pair("content-type", "text/html"),
    ];
    assert_eq!(sanitize_response_headers(headers), vec![pair("content-type", "text/html")]);
    let headers = vec![
        pair("Set-Cookie2", "a"),
        pair("Last-Modified", "b"),
        pair("CF-Ray", "c"),
        pair("X-Cache", "d"),
        pair("X-Served-By", "e"),
        pair("X-Timer", "f"),
        pair("X-Trace-Id", "g"),
        pair("X-Amzn-RequestId", "h"),
        pair("X-Request-ID", "i"),
        pair("X-Correlation-ID", "j"),
        pair("Server", "k"),
    ];
    assert_eq!(sanitize_response_headers(headers), vec![pair("Server", "k")]);
}

#[test]
fn test_normalizer_creation() {
    let normalizer = TlsFingerprintNormalizer::new();
    let config = normalizer.create_config().unwrap();

    assert_eq!(config.cipher_suites[0], 0x1301);
    assert!(config.cipher_suites.len() > 10);
}

#[test]
fn test_tls_version() {
    let normalizer = TlsFingerprintNormalizer::new();
    let config = normalizer.create_config().unwrap();

    assert_eq!(config.min_version, TlsVersion::Tls12);
    assert_eq!(config.max_version, TlsVersion::Tls13);
}

#[test]
fn test_alpn() {
    let normalizer = TlsFingerprintNormalizer::new();
    let config = normalizer.create_config().unwrap();

    assert_eq!(config.alpn_protocols, vec!["h2", "http/1.1"]);
}

#[test]
fn tls_profile_is_identical_on_every_call() {
    let normalizer = TlsFingerprintNormalizer::default();
    let a = normalizer.create_config().unwrap();
    let b = normalizer.create_config().unwrap();
    assert_eq!(a.cipher_suites, b.cipher_suites);
    assert_eq!(a.extensions, b.extensions);
    assert_eq!(a.supported_groups, b.supported_groups);
    assert_eq!(a.signature_algorithms, b.signature_algorithms);
    assert_eq!(a.supported_groups, vec![0x001d, 0x0017, 0x0018, 0x0019, 0x0100, 0x0101]);
    assert_eq!(a.extensions.len(), 15);
    assert_eq!(a.signature_algorithms[0], 0x0403);
    assert_eq!(normalizer.expected_ja3_hash(), "e7d705a3286e19ea42f587b344ee6865");
    assert!(!normalizer.verify_client_hello(&[0x16]));
    assert!(!normalizer.verify_client_hello(&[]));
    let h2 = Http2Fingerprint::default();
    assert_eq!(h2.settings[3], (0x4, 131072));
    assert_eq!(h2.window_update, 12517377);
    assert_eq!(h2.priority.weight, 41);
}

#[test]
fn test_torrc_generation() {
    let config = TorConfig::default();
    let torrc = config.to_torrc();

    assert!(torrc.contains("DataDirectory"));
    assert!(torrc.contains("SocksPort 9150"));
    assert!(torrc.contains("AvoidDiskWrites 1"));
    assert!(torrc.contains("SafeLogging 1"));
}

#[test]
fn torrc_with_bridges_exact_text() {
    let config = TorConfig {
        data_dir: "/d".to_string(),
        socks_port: 7,
        control_port: 65535,
        use_bridges: true,
        bridges: vec!["obfs4 a".to_string(), "obfs4 b".to_string()],
        disable_disk: true,
        strict_exit: false,
    };
    assert_eq!(
        config.to_torrc(),
        "DataDirectory /d\nSocksPort 7\nControlPort 65535\nCookieAuthentication 1\nAvoidDiskWrites 1\nDisableDebuggerAttachment 1\nDisableNetwork 0\nUseBridges 1\nBridge obfs4 a\nBridge obfs4 b\nSafeLogging 1\nClientOnly 1\n"
    );
}

#[test]
fn test_circuit_id_generation() {
    let id1 = generate_circuit_id();
    let start = std::time::Instant::now();
    while start.elapsed() < std::time::Duration::from_millis(1) {}
    let id2 = generate_circuit_id();

    assert_ne!(id1, id2);
    assert!(id1.starts_with("circuit_"));
}

#[test]
fn circuit_ids_have_the_documented_shape() {
    let id = generate_circuit_id();
    assert!(id.starts_with("circuit_"));
    assert!(id.len() >= "circuit_".len() + 16);
    assert!(id["circuit_".len()..].chars().all(|c| c.is_ascii_hexdigit() && !c.is_ascii_uppercase()));
}

#[test]
fn circuit_manager_never_repeats_an_identifier() {
    let mut manager = CircuitManager::new();
    let a = manager.create_circuit_at(0x2a).unwrap();
    let b = manager.create_circuit_at(0x2a).unwrap();
    let c = manager.create_circuit_at(5).unwrap();
    assert_eq!(a.id(), "circuit_000000000000002a");
    assert_eq!(b.id(), "circuit_000000000000002b");
    assert_eq!(c.id(), "circuit_000000000000002c");
    let drained = manager.close_all();
    assert_eq!(drained.len(), 3);
    let d = manager.create_circuit_at(1).unwrap();
    assert_eq!(d.id(), "circuit_000000000000002d");
    assert_eq!(manager.close_all(), vec!["circuit_000000000000002d".to_string()]);
    let mut full = CircuitManager::new();
    let e = full.create_circuit_at(u128::MAX).unwrap();
    assert_eq!(e.id(), "circuit_ffffffffffffffffffffffffffffffff");
    assert!(matches!(full.create_circuit_at(3), Err(NetworkError::CircuitCreationFailed(_))));
}

#[test]
fn many_sequential_circuits_are_all_distinct() {
    let mut manager = CircuitManager::new();
    let mut seen = std::collections::HashSet::new();
    for _ in 0..200 {
        let c = manager.create_new_circuit().unwrap();
        assert!(seen.insert(c.id().to_string()));
    }
}

#[test]
fn two_requests_get_different_circuits() {
    let mut manager = CircuitManager::new();
    let first = manager.create_new_circuit().unwrap();
    let second = manager.create_new_circuit().unwrap();
    assert_ne!(first.id(), second.id());
}

#[test]
fn test_normalize_size() {
    assert_eq!(normalize_size(100), 512);
    assert_eq!(normalize_size(512), 512);
    assert_eq!(normalize_size(513), 1024);
    assert_eq!(normalize_size(1000), 1024);
    assert_eq!(normalize_size(1025), 2048);
    assert_eq!(normalize_size(100000), 131072);
}

#[test]
fn normalize_size_bounds_and_idempotence() {
    for n in [0usize, 1, 511, 512, 4097, 65536, 65537, 131072, 131073, 1 << 30] {
        let b = normalize_size(n);
        assert!(b >= n);
        assert_eq!(normalize_size(b), b);
    }
    assert_eq!(normalize_size(0), 512);
    assert_eq!(normalize_size(65537), 131072);
}

#[test]
fn test_padding_generator() {
    let gen = PaddingGenerator::new(512);

    let padding = gen.generate(100);
    assert_eq!(padding.len(), 412);

    let padding = gen.generate(512);
    assert_eq!(padding.len(), 0);

    let padding = gen.generate(600);
    assert_eq!(padding.len(), 0);
}

#[test]
fn padding_keeps_data_and_reaches_target() {
    let gen = PaddingGenerator::default();
    let padded = gen.pad(b"abc");
    assert_eq!(padded.len(), 512);
    assert_eq!(&padded[..3], b"abc");
    let long = vec![7u8; 600];
    assert_eq!(gen.pad(&long), long);
}

#[test]
fn jitter_with_zero_range_never_sleeps() {
    let shaper = TrafficShaper::new(0, 0, 0, 0);
    for _ in 0..20 {
        assert_eq!(shaper.jitter_delay(), None);
    }
    let shaper = TrafficShaper::new(10, 20, 5, 9);
    for _ in 0..20 {
        let d = shaper.jitter_delay().unwrap();
        assert!((5..=9).contains(&d));
        let p = shaper.padding_length();
        assert!((10..=20).contains(&p));
    }
    assert_eq!(shaper.pad_request(b"body"), b"body".to_vec());
}

#[test]
fn network_config_defaults() {
    let c = NetworkConfig::default();
    assert_eq!(c.min_padding_bytes, 256);
    assert_eq!(c.max_padding_bytes, 2048);
    assert_eq!(c.max_jitter_ms, 50);
    assert_eq!(c.tor_socks_port, 9150);
    assert_eq!(c.request_timeout.as_secs(), 60);
    assert!(c.new_circuit_per_request);
}

#[test]
fn error_messages_match_their_kind() {
    assert_eq!(NetworkError::Timeout.message(), "Request timed out");
    assert_eq!(
        NetworkError::ProtocolNotSupported("http".to_string()).message(),
        "Protocol not supported: http (only HTTPS allowed)"
    );
    assert_eq!(NetworkError::DnsError("x".to_string()).message(), "DNS resolution failed: x");
}

struct Parts {
    synth: HeaderSynthesizer,
    shaper: TrafficShaper,
    tls: TlsFingerprintNormalizer,
}

fn parts() -> Parts {
    Parts {
        synth: HeaderSynthesizer::new(),
        shaper: TrafficShaper::new(256, 2048, 0, 0),
        tls: TlsFingerprintNormalizer::new(),
    }
}

#[test]
fn insecure_request_never_asks_for_a_circuit() {
    let p = parts();
    let mut pipeline = RequestPipeline::new("GET", "http://example.test/path", None);
    let mut circuit_requests = 0;
    let mut action = pipeline.begin();
    for _ in 0..4 {
        match action {
            PipelineAction::OpenCircuit => circuit_requests += 1,
            PipelineAction::Finish(Err(NetworkError::ProtocolNotSupported(ref s))) => {
                assert_eq!(s, "http")
            }
            PipelineAction::Finish(_) => panic!("unexpected finish"),
            _ => {}
        }
        action = pipeline.on_event(PipelineEvent::JitterElapsed, &p.synth, &p.shaper, &p.tls);
    }
    assert_eq!(circuit_requests, 0);
}

fn run_request(manager: &mut CircuitManager, url: &str) -> forloop::network::NetworkResponse {
    let p = parts();
    let mut pipeline = RequestPipeline::new("GET", url, None);
    let mut action = pipeline.begin();
    loop {
        let event = match action {
            PipelineAction::Jitter => PipelineEvent::JitterElapsed,
            PipelineAction::OpenCircuit => match manager.create_new_circuit() {
                Ok(c) => PipelineEvent::CircuitOpened(c),
                Err(e) => PipelineEvent::CircuitFailed(e.message()),
            },
            PipelineAction::Send(req) => {
                assert!(req.body.is_none());
                assert!((256..=2048).contains(&req.padding));
                assert_eq!(pipeline.circuit_to_close(), Some(req.circuit_id.as_str()));
                assert_eq!(req.headers[0].0, "User-Agent");
                assert_eq!(req.tls.cipher_suites[0], 0x1301);
                PipelineEvent::ResponseReceived(RawResponse {
                    status: 200,
                    headers: vec![pair("content-type", "text/html"), pair("ETag", "\"x\"")],
                    body: Vec::new(),
                })
            }
            PipelineAction::Finish(result) => {
                let response = result.unwrap();
                assert_eq!(pipeline.circuit_to_close(), Some(response.circuit_id.as_str()));
                return response;
            }
            PipelineAction::Nothing => panic!("stalled"),
        };
        action = pipeline.on_event(event, &p.synth, &p.shaper, &p.tls);
    }
}

#[test]
fn secure_requests_use_fresh_circuits() {
    let mut manager = CircuitManager::new();
    let first = run_request(&mut manager, "https://example.test/path");
    let second = run_request(&mut manager, "https://example.test/path");
    assert_eq!(first.status, 200);
    assert_eq!(first.headers, vec![pair("content-type", "text/html")]);
    assert_ne!(first.circuit_id, second.circuit_id);
}

#[test]
fn pipeline_reports_failures_by_kind() {
    let p = parts();
    let mut pipeline = RequestPipeline::new("GET", "https://example.test/", Some(b"x"));
    assert!(matches!(pipeline.begin(), PipelineAction::Jitter));
    assert!(matches!(
        pipeline.on_event(PipelineEvent::JitterElapsed, &p.synth, &p.shaper, &p.tls),
        PipelineAction::OpenCircuit
    ));
    match pipeline.on_event(PipelineEvent::CircuitFailed("down".to_string()), &p.synth, &p.shaper, &p.tls) {
        PipelineAction::Finish(Err(NetworkError::CircuitCreationFailed(m))) => assert_eq!(m, "down"),
        _ => panic!("expected a circuit failure"),
    }
    assert_eq!(pipeline.circuit_to_close(), None);
    let mut manager = CircuitManager::new();
    let mut pipeline = RequestPipeline::new("POST", "https://example.test/", Some(b"x"));
    pipeline.begin();
    pipeline.on_event(PipelineEvent::JitterElapsed, &p.synth, &p.shaper, &p.tls);
    let circuit = manager.create_new_circuit().unwrap();
    match pipeline.on_event(PipelineEvent::CircuitOpened(circuit), &p.synth, &p.shaper, &p.tls) {
        PipelineAction::Send(req) => {
            assert_eq!(req.method, "POST");
            assert_eq!(req.body, Some(b"x".to_vec()));
        }
        _ => panic!("expected a send"),
    }
    assert!(matches!(
        pipeline.on_event(PipelineEvent::TransportFailed(NetworkError::Timeout), &p.synth, &p.shaper, &p.tls),
        PipelineAction::Finish(Err(NetworkError::Timeout))
    ));
    assert!(pipeline.circuit_to_close().unwrap().starts_with("circuit_"));
    assert!(matches!(
        pipeline.on_event(PipelineEvent::JitterElapsed, &p.synth, &p.shaper, &p.tls),
        PipelineAction::Nothing
    ));
}

fn list_data(entries: &[u16]) -> Vec<u8> {
    let mut d = ((entries.len() * 2) as u16).to_be_bytes().to_vec();
    for e in entries {
        d.extend(e.to_be_bytes());
    }
    d
}

fn client_hello(ciphers: &[u16], exts: &[(u16, Vec<u8>)], record: bool) -> Vec<u8> {
    let mut body = vec![0x03, 0x03];
    body.extend([7u8; 32]);
    body.push(2);
    body.extend([9u8, 9]);
    body.extend(((ciphers.len() * 2) as u16).to_be_bytes());
    for c in ciphers {
        body.extend(c.to_be_bytes());
    }
    body.push(1);
    body.push(0);
    let mut block = Vec::new();
    for (t, d) in exts {
        block.extend(t.to_be_bytes());
        block.extend((d.len() as u16).to_be_bytes());
        block.extend(d);
    }
    body.extend((block.len() as u16).to_be_bytes());
    body.extend(block);
    let l = body.len();
    let mut hs = vec![1u8, (l >> 16) as u8, (l >> 8) as u8, l as u8];
    hs.extend(body);
    if !record {
        return hs;
    }
    let mut rec = vec![0x16, 0x03, 0x01];
    rec.extend((hs.len() as u16).to_be_bytes());
    rec.extend(hs);
    rec
}

fn profile_extensions(groups: &[u16], sigs: &[u16]) -> Vec<(u16, Vec<u8>)> {
    let types = [
        0x0000u16, 0x0017, 0xff01, 0x000a, 0x000b, 0x0023, 0x0010, 0x0005, 0x0022, 0x0033, 0x002b,
        0x000d, 0x001c, 0x001b, 0x0029,
    ];
    types
        .iter()
        .map(|t| match *t {
            0x000a => (*t, list_data(groups)),
            0x000d => (*t, list_data(sigs)),
            _ => (*t, vec![0u8, 1]),
        })
        .collect()
}

#[test]
fn client_hello_in_profile_order_is_accepted() {
    let normalizer = TlsFingerprintNormalizer::new();
    let config = normalizer.create_config().unwrap();
    let exts = profile_extensions(&config.supported_groups, &config.signature_algorithms);
    let good = client_hello(&config.cipher_suites, &exts, true);
    assert!(normalizer.verify_client_hello(&good));
    assert!(normalizer.verify_client_hello(&client_hello(&config.cipher_suites, &exts, false)));

    let mut swapped = config.cipher_suites.clone();
    swapped.swap(0, 1);
    assert!(!normalizer.verify_client_hello(&client_hello(&swapped, &exts, true)));

    let mut reordered = exts.clone();
    reordered.swap(0, 1);
    assert!(!normalizer.verify_client_hello(&client_hello(&config.cipher_suites, &reordered, true)));

    let mut groups = config.supported_groups.clone();
    groups.reverse();
    let other_groups = profile_extensions(&groups, &config.signature_algorithms);
    assert!(!normalizer.verify_client_hello(&client_hello(&config.cipher_suites, &other_groups, true)));

    assert!(!normalizer.verify_client_hello(&good[..good.len() - 1]));
}

#[test]
fn jitter_decisions_on_given_draws() {
    let shaper = TrafficShaper::new(256, 2048, 0, 50);
    assert_eq!(shaper.jitter_for_draw(0), None);
    assert_eq!(shaper.jitter_for_draw(17), Some(17));
    let off = TrafficShaper::new(256, 2048, 0, 0);
    assert_eq!(off.jitter_for_draw(3), None);
    let always = TrafficShaper::new(1, 1, 5, 6);
    for _ in 0..20 {
        assert!(always.jitter_delay().is_some());
    }
    let empty = TrafficShaper::new(9, 1, 9, 1);
    assert!(!empty.ranges_valid());
    assert!(!empty.padding_valid());
    assert!(!empty.jitter_valid());
    assert!(TrafficShaper::new(1, 0, 7, 0).jitter_valid());
}

#[test]
fn lower_case_name_checks() {
    assert!(is_forbidden_name("cookie"));
    assert!(!is_forbidden_name("Cookie"));
    assert!(!is_forbidden_name("accept"));
    assert_eq!(canonical_rank("host"), 0);
    assert_eq!(canonical_rank("content-length"), 12);
    assert_eq!(canonical_rank("x-unknown"), 13);
    assert!(is_tracking_name("etag"));
    assert!(!is_tracking_name("content-type"));
}
