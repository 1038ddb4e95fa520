//! The headers every response carries, success or failure: the five
//! security defaults (kept where a handler already set one), and the
//! trace context `traceparent` / `x-trace-id`.

use vstd::prelude::*;
use crate::security_headers::{security_headers, security_header_pairs};
use crate::text::{hex_bytes, is_hex_char, lemma_hex_bytes_is_hex};
use crate::trace_headers::{
    extract_or_generate_trace_id, generate_span_id, traceparent_value, random_bytes_of,
    response_trace_id, trace_id_is_32_hex,
};

verus! {

/// The span id of a response drawn from `span_seed`.
pub open spec fn response_span_id(span_seed: u64) -> Seq<char> {
    hex_bytes(random_bytes_of(span_seed, 8))
}

/// The `traceparent` of a response: version `00`, the trace id, the
/// span id, flags `01`.
pub open spec fn response_traceparent(inbound: Option<Seq<char>>, trace_seed: u64, span_seed: u64) -> Seq<char> {
    "00-"@ + response_trace_id(inbound, trace_seed) + "-"@ + response_span_id(span_seed) + "-01"@
}

/// What a response is given on its way out.
pub struct ResponseHeaders {
    /// `(name, value)` pairs set unless the response already has them.
    pub defaults: Vec<(&'static str, &'static str)>,
    /// The `traceparent` value, replacing any other.
    pub traceparent: String,
    /// The `x-trace-id` value, replacing any other.
    pub trace_id: String,
}

/// The headers for a response to a request that carried the
/// `traceparent` value `inbound` (when it had one readable as text),
/// with fresh ids drawn from the two seeds.
pub fn response_headers(inbound: Option<&str>, trace_seed: u64, span_seed: u64) -> (r: ResponseHeaders)
    ensures
        r.defaults@.len() == security_header_pairs().len(),
        forall|i: int| 0 <= i < r.defaults@.len() ==> (#[trigger] r.defaults@[i]).0@ == security_header_pairs()[i].0
            && r.defaults@[i].1@ == security_header_pairs()[i].1,
        r.trace_id@ == response_trace_id(match inbound { Some(v) => Some(v@), None => None }, trace_seed),
        r.traceparent@ == response_traceparent(match inbound { Some(v) => Some(v@), None => None }, trace_seed, span_seed),
{
    let trace_id = extract_or_generate_trace_id(inbound, trace_seed);
    let span_id = generate_span_id(span_seed);
    let traceparent = traceparent_value(trace_id.as_str(), span_id.as_str());
    ResponseHeaders { defaults: security_headers(), traceparent, trace_id }
}

/// Law: every response carries the five security headers
/// `content-security-policy`, `strict-transport-security`,
/// `x-frame-options`, `x-content-type-options` and `referrer-policy`,
/// an `x-trace-id` of 32 hex digits, and a `traceparent` of the form
/// `00-<x-trace-id>-<16 hex digits>-01`, whatever the request carried.
pub proof fn every_response_is_traced_and_hardened(inbound: Option<Seq<char>>, trace_seed: u64, span_seed: u64)
    ensures
        security_header_pairs().len() == 5,
        security_header_pairs()[0].0 == "content-security-policy"@,
        security_header_pairs()[1].0 == "strict-transport-security"@,
        security_header_pairs()[2].0 == "x-frame-options"@,
        security_header_pairs()[3].0 == "x-content-type-options"@,
        security_header_pairs()[4].0 == "referrer-policy"@,
        response_trace_id(inbound, trace_seed).len() == 32,
        forall|i: int| 0 <= i < 32 ==> is_hex_char(#[trigger] response_trace_id(inbound, trace_seed)[i]),
        response_span_id(span_seed).len() == 16,
        forall|i: int| 0 <= i < 16 ==> is_hex_char(#[trigger] response_span_id(span_seed)[i]),
        response_traceparent(inbound, trace_seed, span_seed).len() == 55,
        response_traceparent(inbound, trace_seed, span_seed).subrange(0, 3) == "00-"@,
        response_traceparent(inbound, trace_seed, span_seed).subrange(3, 35) == response_trace_id(inbound, trace_seed),
        response_traceparent(inbound, trace_seed, span_seed)[35] == '-',
        response_traceparent(inbound, trace_seed, span_seed).subrange(36, 52) == response_span_id(span_seed),
        response_traceparent(inbound, trace_seed, span_seed).subrange(52, 55) == "-01"@,
{
    trace_id_is_32_hex(inbound, trace_seed);
    lemma_hex_bytes_is_hex(random_bytes_of(span_seed, 8));
    reveal_strlit("00-");
    reveal_strlit("-");
    reveal_strlit("-01");
    let t = response_trace_id(inbound, trace_seed);
    let sp = response_span_id(span_seed);
    let tp = response_traceparent(inbound, trace_seed, span_seed);
    assert(random_bytes_of(span_seed, 8).len() == 8);
    assert(tp.subrange(0, 3) =~= "00-"@);
    assert(tp.subrange(3, 35) =~= t);
    assert(tp.subrange(36, 52) =~= sp);
    assert(tp.subrange(52, 55) =~= "-01"@);
}

} // verus!
