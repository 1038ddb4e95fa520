use fileferry::response_headers::response_headers;
use fileferry::security_headers::security_headers;
use fileferry::trace_headers::{
    extract_or_generate_trace_id, extract_trace_id, generate_span_id, random_bytes, random_hex_128,
    traceparent_value,
};

fn is_hex(s: &str) -> bool {
    s.chars().all(|c| c.is_ascii_hexdigit())
}

#[test]
fn generates_when_no_header() {
    let id = extract_or_generate_trace_id(None, 0x1234_5678_9abc_def0);
    assert_eq!(id.len(), 32);
    assert!(id.chars().all(|c| c.is_ascii_hexdigit()));
}

#[test]
fn extracts_from_valid_traceparent() {
    assert_eq!(
        extract_or_generate_trace_id(Some("00-0af7651916cd43dd8448eb211c80319c-b7ad6b7169203331-01"), 7),
        "0af7651916cd43dd8448eb211c80319c"
    );
}

#[test]
fn synthesises_when_header_malformed() {
    let id = extract_or_generate_trace_id(Some("00-!!!!!!!!!!!!!!!!!!!!!!!!!!!!!!!!-b7ad6b7169203331-01"), 99);
    assert_eq!(id.len(), 32);
    assert!(id.chars().all(|c| c.is_ascii_hexdigit()));
}

#[test]
fn traceparent_inbound_id_is_echoed() {
    let header = "00-0af7651916cd43dd8448eb211c80319c-b7ad6b7169203331-01";
    let id = extract_or_generate_trace_id(Some(header), 1);
    assert_eq!(id, "0af7651916cd43dd8448eb211c80319c");
}

#[test]
fn inbound_trace_id_is_lowercased_and_shape_checked() {
    assert_eq!(
        extract_trace_id("00-0AF7651916CD43DD8448EB211C80319C-b7ad6b7169203331-01").as_deref(),
        Some("0af7651916cd43dd8448eb211c80319c")
    );
    assert_eq!(extract_trace_id("00-0af7651916cd43dd8448eb211c80319c-b7ad6b7169203331"), None);
    assert_eq!(extract_trace_id("00-0af7651916cd43dd8448eb211c8031-b7ad6b7169203331-01"), None);
    assert_eq!(extract_trace_id("00-0af7651916cd43dd8448eb211c80319c-x-01-extra"), None);
    assert_eq!(extract_trace_id(""), None);
    // Only the trace id slot is checked; the other parts may be anything.
    assert_eq!(
        extract_trace_id("zz-0af7651916cd43dd8448eb211c80319c--").as_deref(),
        Some("0af7651916cd43dd8448eb211c80319c")
    );
}

fn xorshift_bytes(seed: u64, n: usize) -> Vec<u8> {
    let mut state = seed;
    let mut out = Vec::new();
    for _ in 0..n {
        state ^= state << 13;
        state ^= state >> 7;
        state ^= state << 17;
        out.push((state & 0xff) as u8);
    }
    out
}

#[test]
fn random_ids_follow_the_xorshift_stream() {
    let seed = 0x0123_4567_89ab_cdef;
    assert_eq!(random_bytes(seed, 16), xorshift_bytes(seed, 16));
    let expected: String = xorshift_bytes(seed, 16).iter().map(|b| format!("{b:02x}")).collect();
    assert_eq!(random_hex_128(seed), expected);
    let span = generate_span_id(seed);
    assert_eq!(span.len(), 16);
    assert!(is_hex(&span));
    assert_eq!(span, expected[..16]);
}

#[test]
fn every_response_carries_traceparent_and_x_trace_id() {
    let trace = extract_or_generate_trace_id(None, 42);
    let span = generate_span_id(43);
    let tp = traceparent_value(&trace, &span);
    assert!(tp.starts_with("00-"), "expected W3C traceparent shape, got {tp:?}");
    assert_eq!(tp.len(), 55);
    assert_eq!(tp, format!("00-{trace}-{span}-01"));
    assert!(trace.len() == 32 && is_hex(&trace), "x-trace-id must be 32-char hex, got {trace:?}");
}

#[test]
fn every_response_carries_security_headers() {
    let hs = security_headers();
    let names: Vec<&str> = hs.iter().map(|(n, _)| *n).collect();
    for expected in [
        "content-security-policy",
        "strict-transport-security",
        "x-frame-options",
        "x-content-type-options",
        "referrer-policy",
    ] {
        assert!(names.contains(&expected), "response missing header {expected}");
    }
    assert_eq!(hs[2], ("x-frame-options", "DENY"));
    assert_eq!(hs[3], ("x-content-type-options", "nosniff"));
    assert_eq!(hs[4], ("referrer-policy", "no-referrer"));
}

#[test]
fn response_headers_carry_defaults_and_trace_context() {
    let h = response_headers(Some("00-0af7651916cd43dd8448eb211c80319c-b7ad6b7169203331-01"), 5, 6);
    assert_eq!(h.trace_id, "0af7651916cd43dd8448eb211c80319c");
    assert_eq!(h.traceparent, format!("00-{}-{}-01", h.trace_id, generate_span_id(6)));
    assert_eq!(h.traceparent.len(), 55);
    assert_eq!(h.defaults, security_headers());
    let fresh = response_headers(None, 5, 6);
    assert_eq!(fresh.trace_id, random_hex_128(5));
    assert!(is_hex(&fresh.trace_id) && fresh.trace_id.len() == 32);
    assert_eq!(&fresh.traceparent[3..35], fresh.trace_id.as_str());
}
