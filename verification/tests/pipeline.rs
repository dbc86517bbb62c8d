use simprox::config::Config;
use simprox::logfmt::{decimal_string, end_line, failure_line, start_line};
use simprox::relay::{relay, ProxyResponse, ResponseBody, TransportError, UpstreamResponse};
use simprox::request::{build_request, resolve, OriginalRequest, ProxyError};

fn capture(method: &str, path: &str, query: &str) -> OriginalRequest {
    OriginalRequest::new(
        method.to_string(),
        path.to_string(),
        query.to_string(),
        Vec::new(),
        Vec::new(),
    )
}

#[test]
fn target_without_scheme_gets_http_prefix() {
    let c = Config::build(
        "127.0.0.1:7000".to_string(),
        "example.local:9200".to_string(),
        false,
    );
    assert_eq!(c.listen, "127.0.0.1:7000");
    assert_eq!(c.target_host, "http://example.local:9200");
    assert!(!c.skip_ssl_verify);
}

#[test]
fn bare_host_starting_with_http_letters_still_gets_prefix() {
    let c = Config::build(
        "127.0.0.1:7000".to_string(),
        "httpbin.org:80".to_string(),
        false,
    );
    assert_eq!(c.target_host, "http://httpbin.org:80");

    let c = Config::build(
        "127.0.0.1:7000".to_string(),
        "httpx.local:1".to_string(),
        false,
    );
    assert_eq!(c.target_host, "http://httpx.local:1");
}

#[test]
fn target_with_http_scheme_is_kept() {
    let c = Config::build(
        "127.0.0.1:7000".to_string(),
        "http://example.local:9200".to_string(),
        false,
    );
    assert_eq!(c.target_host, "http://example.local:9200");
}

#[test]
fn target_with_scheme_is_kept() {
    let c = Config::build(
        "127.0.0.1:7000".to_string(),
        "https://example.local:9200".to_string(),
        true,
    );
    assert_eq!(c.target_host, "https://example.local:9200");
    assert!(c.skip_ssl_verify);
}

#[test]
fn normalization_is_idempotent() {
    let once = Config::build(
        "127.0.0.1:7000".to_string(),
        "example.local:9200".to_string(),
        false,
    );
    let twice = Config::build("127.0.0.1:7000".to_string(), once.target_host.clone(), false);
    assert_eq!(twice.target_host, "http://example.local:9200");
    assert_eq!(once.target_host, twice.target_host);
}

#[test]
fn outbound_uri_for_query_scenario() {
    let c = Config::build(
        "127.0.0.1:7000".to_string(),
        "example.local:9200".to_string(),
        false,
    );
    let original = capture("GET", "/search", "q=a");
    let request = build_request(original, &c.target_host).unwrap();
    assert_eq!(request.location, "http://example.local:9200/search?q=a");
    assert_eq!(request.method, "GET");
}

#[test]
fn outbound_uri_without_query_has_no_question_mark() {
    let original = capture("GET", "/search", "");
    let request = build_request(original, "http://example.local:9200").unwrap();
    assert_eq!(request.location, "http://example.local:9200/search");
}

#[test]
fn headers_and_body_pass_through_unchanged() {
    let headers = vec![
        ("accept".to_string(), b"text/html".to_vec()),
        ("cookie".to_string(), b"a=1".to_vec()),
        ("cookie".to_string(), b"b=2".to_vec()),
    ];
    let body = b"payload".to_vec();
    let original = OriginalRequest::new(
        "POST".to_string(),
        "/items".to_string(),
        String::new(),
        headers.clone(),
        body.clone(),
    );
    let request = build_request(original, "http://upstream:1").unwrap();
    assert_eq!(request.headers, headers);
    assert_eq!(request.body, body);
}

#[test]
fn invalid_location_is_rejected_for_that_request() {
    let original = capture("GET", "/a b", "");
    let result = build_request(original, "http://example.local:9200");
    assert!(matches!(result, Err(ProxyError::InvalidTargetUri)));
}

#[test]
fn resolve_composes_target_path_and_query() {
    let base = "http://example.local:9200";
    assert_eq!(
        resolve("/search", "q=a", base).unwrap(),
        "http://example.local:9200/search?q=a"
    );
    assert_eq!(
        resolve("/search", "", base).unwrap(),
        "http://example.local:9200/search"
    );
    assert!(matches!(
        resolve("/a b", "", base),
        Err(ProxyError::InvalidTargetUri)
    ));
}

#[test]
fn query_string_is_empty_or_prefixed() {
    let with_query = capture("GET", "/p", "x=1&y=2");
    assert_eq!(with_query.query_string(), "?x=1&y=2");
    let without_query = capture("GET", "/p", "");
    assert_eq!(without_query.query_string(), "");
}

#[test]
fn successful_response_is_relayed_verbatim() {
    let headers = vec![("content-type".to_string(), b"application/json".to_vec())];
    let upstream = UpstreamResponse {
        status: 200,
        headers: headers.clone(),
        body: b"{\"ok\":true}".to_vec(),
    };
    let relayed: ProxyResponse<Vec<u8>> = relay(Ok(upstream));
    assert_eq!(relayed.status, 200);
    assert_eq!(relayed.headers, headers);
    match relayed.body {
        ResponseBody::Upstream(bytes) => assert_eq!(bytes, b"{\"ok\":true}".to_vec()),
        ResponseBody::Text(_) => panic!("expected the upstream body to pass through"),
    }
}

#[test]
fn transport_failure_becomes_fixed_503() {
    let outcome: Result<UpstreamResponse<Vec<u8>>, TransportError> = Err(TransportError {
        cause: "connection refused".to_string(),
    });
    let relayed = relay(outcome);
    assert_eq!(relayed.status, 503);
    assert!(relayed.headers.is_empty());
    match relayed.body {
        ResponseBody::Text(text) => assert_eq!(text, "proxy server unavailable"),
        ResponseBody::Upstream(_) => panic!("expected the synthetic text body"),
    }
}

#[test]
fn every_transport_cause_maps_to_503() {
    for cause in ["connection refused", "dns failure", "tls handshake failure"] {
        let outcome: Result<UpstreamResponse<Vec<u8>>, TransportError> = Err(TransportError {
            cause: cause.to_string(),
        });
        assert_eq!(relay(outcome).status, 503);
    }
}

#[test]
fn concurrent_captures_keep_their_own_body() {
    let first = OriginalRequest::new(
        "POST".to_string(),
        "/one".to_string(),
        String::new(),
        vec![("x-id".to_string(), b"1".to_vec())],
        b"body-one".to_vec(),
    );
    let second = OriginalRequest::new(
        "POST".to_string(),
        "/two".to_string(),
        String::new(),
        vec![("x-id".to_string(), b"2".to_vec())],
        b"body-two".to_vec(),
    );
    let first_out = build_request(first, "http://upstream:1").unwrap();
    let second_out = build_request(second, "http://upstream:1").unwrap();
    assert_eq!(first_out.body, b"body-one".to_vec());
    assert_eq!(second_out.body, b"body-two".to_vec());
    assert_eq!(first_out.headers, vec![("x-id".to_string(), b"1".to_vec())]);
    assert_eq!(second_out.headers, vec![("x-id".to_string(), b"2".to_vec())]);
    assert_ne!(first_out.body, second_out.body);
}

#[test]
fn log_lines_have_the_expected_shape() {
    assert_eq!(start_line("GET", "/search", "q=a"), "[GET] /search?q=a");
    assert_eq!(start_line("POST", "/items", ""), "[POST] /items");
    assert_eq!(end_line(200), " => 200");
    assert_eq!(end_line(0), " => 0");
    assert_eq!(end_line(65535), " => 65535");
    assert_eq!(decimal_string(503), "503");
    assert_eq!(failure_line(), "FAILED: proxy server unavailable");
}
