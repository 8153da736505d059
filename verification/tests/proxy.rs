use request_proxy::method::{parse_method, Method};
use request_proxy::proxy::{body_text, finish, prepare, transport_failure_message};
use request_proxy::status::status_text;
use request_proxy::text::{header_value_text, normalize_body};

#[test]
fn every_supported_method_parses_in_any_case() {
    let cases = [
        ("GET", Method::Get),
        ("get", Method::Get),
        ("GeT", Method::Get),
        ("POST", Method::Post),
        ("post", Method::Post),
        ("PoSt", Method::Post),
        ("PUT", Method::Put),
        ("put", Method::Put),
        ("DELETE", Method::Delete),
        ("delete", Method::Delete),
        ("dElEtE", Method::Delete),
        ("PATCH", Method::Patch),
        ("patch", Method::Patch),
        ("HEAD", Method::Head),
        ("head", Method::Head),
    ];
    for (s, m) in cases {
        assert_eq!(parse_method(s), Ok(m));
    }
}

#[test]
fn lowercase_get_behaves_like_uppercase_get() {
    assert_eq!(parse_method("get"), parse_method("GET"));
    assert_eq!(parse_method("get"), Ok(Method::Get));
}

#[test]
fn unsupported_methods_fail_naming_the_string() {
    for s in ["TRACE", "OPTIONS", "", "G ET", "GETT", "pos", "🚀"] {
        let e = parse_method(s).unwrap_err();
        assert_eq!(e, format!("Unsupported HTTP method: {}", s));
        assert!(e.contains(s));
    }
}

#[test]
fn blank_bodies_count_as_absent() {
    assert_eq!(normalize_body(None), None);
    assert_eq!(normalize_body(Some(String::new())), None);
    assert_eq!(normalize_body(Some("   ".to_string())), None);
    assert_eq!(normalize_body(Some(" \t\r\n ".to_string())), None);
    assert_eq!(normalize_body(Some("\u{00A0}\u{2003}\u{3000}".to_string())), None);
}

#[test]
fn nonblank_bodies_are_kept_unchanged() {
    assert_eq!(normalize_body(Some("x".to_string())), Some("x".to_string()));
    assert_eq!(
        normalize_body(Some("  padded  ".to_string())),
        Some("  padded  ".to_string())
    );
    assert_eq!(normalize_body(Some("{}".to_string())), Some("{}".to_string()));
}

#[test]
fn prepare_carries_url_and_headers_through() {
    let headers = vec![
        ("Content-Type".to_string(), "application/json".to_string()),
        ("X-Token".to_string(), "abc123".to_string()),
    ];
    let plan = prepare(
        "post",
        "http://example.test/items".to_string(),
        headers.clone(),
        Some("{\"a\":1}".to_string()),
    )
    .unwrap();
    assert_eq!(plan.method, Method::Post);
    assert_eq!(plan.url, "http://example.test/items");
    assert_eq!(plan.headers, headers);
    assert_eq!(plan.body, Some("{\"a\":1}".to_string()));
}

#[test]
fn prepare_drops_a_blank_body() {
    let plan = prepare("PUT", "http://example.test/".to_string(), Vec::new(), Some("  \n".to_string()))
        .unwrap();
    assert_eq!(plan.body, None);
}

#[test]
fn prepare_rejects_an_unknown_method() {
    let e = prepare("TRACE", "http://example.test/".to_string(), Vec::new(), None).unwrap_err();
    assert_eq!(e, "Unsupported HTTP method: TRACE");
}

#[test]
fn status_text_gives_canonical_reasons() {
    assert_eq!(status_text(200), "OK");
    assert_eq!(status_text(404), "Not Found");
    assert_eq!(status_text(500), "Internal Server Error");
    assert_eq!(status_text(418), "I'm a teapot");
}

#[test]
fn status_text_falls_back_to_unknown() {
    assert_eq!(status_text(0), "Unknown");
    assert_eq!(status_text(99), "Unknown");
    assert_eq!(status_text(599), "Unknown");
    assert_eq!(status_text(1000), "Unknown");
}

#[test]
fn header_values_decode_as_visible_ascii() {
    assert_eq!(header_value_text(&b"application/json".to_vec()), "application/json");
    assert_eq!(header_value_text(&b"a\tb c".to_vec()), "a\tb c");
    assert_eq!(header_value_text(&Vec::new()), "");
}

#[test]
fn invisible_header_values_degrade_to_placeholder() {
    assert_eq!(header_value_text(&vec![0xFF]), "<invalid>");
    assert_eq!(header_value_text(&vec![0x00]), "<invalid>");
    assert_eq!(header_value_text(&b"ok\nok".to_vec()), "<invalid>");
    assert_eq!(header_value_text(&vec![127]), "<invalid>");
}

#[test]
fn body_read_failures_degrade_to_a_diagnostic() {
    assert_eq!(body_text(Ok("hello".to_string())), "hello");
    assert_eq!(
        body_text(Err("stream cut".to_string())),
        "Failed to read response body: stream cut"
    );
}

#[test]
fn transport_failures_wrap_the_cause_and_are_never_empty() {
    assert_eq!(
        transport_failure_message("connection refused"),
        "Request failed: connection refused"
    );
    assert!(!transport_failure_message("").is_empty());
}

#[test]
fn not_found_exchange_assembles_exactly() {
    let r = finish(
        404,
        vec![("X-Test".to_string(), b"1".to_vec())],
        Ok("missing".to_string()),
        12,
    );
    assert_eq!(r.status, 404);
    assert_eq!(r.status_text, "Not Found");
    assert_eq!(r.headers, vec![("X-Test".to_string(), "1".to_string())]);
    assert_eq!(r.body, "missing");
    assert_eq!(r.response_time, 12);
}

#[test]
fn response_time_reports_the_measured_milliseconds() {
    let r = finish(204, Vec::new(), Ok(String::new()), 0);
    assert_eq!(r.response_time, 0);
    let r2 = finish(204, Vec::new(), Ok(String::new()), u64::MAX);
    assert_eq!(r2.response_time, u64::MAX);
}

#[test]
fn finish_keeps_header_order_and_degrades_per_header() {
    let r = finish(
        200,
        vec![
            ("A".to_string(), b"one".to_vec()),
            ("B".to_string(), vec![0xC3, 0xA9]),
            ("C".to_string(), b"three".to_vec()),
        ],
        Ok("".to_string()),
        3,
    );
    assert_eq!(
        r.headers,
        vec![
            ("A".to_string(), "one".to_string()),
            ("B".to_string(), "<invalid>".to_string()),
            ("C".to_string(), "three".to_string()),
        ]
    );
}
