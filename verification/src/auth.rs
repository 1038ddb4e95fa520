//! The optional inter-service bearer-token gate on `/v1/files*`.
//!
//! Without a bearer token in the configuration every request passes. Otherwise a request must
//! carry `Authorization: Bearer <token>`; the presented token is
//! compared in constant time against the configured one.

use vstd::prelude::*;
use vstd::string::StringSliceAdditionalSpecFns;
use vstd::utf8::{encode_utf8, decode_utf8, encode_utf8_decode_utf8};
use subtle::ConstantTimeEq;
use crate::text::{has_prefix, trimmed, trim_start, trim_end, is_whitespace, strip_prefix_chars, chars_of, trim_chars, string_of};

verus! {

/// Constant-time equality of two byte slices
/// (`subtle::ConstantTimeEq::ct_eq` on `[u8]`, turned into `bool`).
/// Claimed: true exactly when the slices are equal; slices of
/// different lengths compare unequal.
#[verifier::external_body]
fn bytes_ct_eq(a: &[u8], b: &[u8]) -> (r: bool)
    ensures
        r == (a@ == b@),
{
    a.ct_eq(b).into()
}

/// Constant-time string equality; inputs of different byte lengths are
/// refused up front (the length is not the secret).
pub fn ct_eq_str(a: &str, b: &str) -> (r: bool)
    ensures
        r == (a@ == b@),
{
    proof {
        encode_utf8_decode_utf8(a@);
        encode_utf8_decode_utf8(b@);
    }
    if a.len() != b.len() {
        return false;
    }
    bytes_ct_eq(a.as_bytes(), b.as_bytes())
}

/// The token a request presents: the `Authorization` value after the
/// `Bearer ` prefix, trimmed; empty when the header is absent,
/// unreadable, or lacks the prefix.
pub open spec fn presented_token(authorization: Option<Seq<char>>) -> Seq<char> {
    match authorization {
        Some(a) => if has_prefix(a, "Bearer "@) { trimmed(a.skip(7)) } else { Seq::empty() },
        None => Seq::empty(),
    }
}

/// Outcome of the bearer gate.
#[derive(Debug, Clone, Copy, PartialEq, Eq, Structural)]
pub enum BearerCheck {
    /// No bearer token is configured: every request passes.
    Open,
    /// The presented token matches.
    Accepted,
    /// No token presented: `401 missing bearer token`.
    Missing,
    /// A different token presented: `401 invalid bearer token`.
    Invalid,
}

/// The verdict for a configured bearer token and a presented header.
pub open spec fn bearer_verdict(expected: Option<Seq<char>>, authorization: Option<Seq<char>>) -> BearerCheck {
    match expected {
        None => BearerCheck::Open,
        Some(t) => {
            let p = presented_token(authorization);
            if p.len() == 0 {
                BearerCheck::Missing
            } else if p != t {
                BearerCheck::Invalid
            } else {
                BearerCheck::Accepted
            }
        },
    }
}

/// Decides a request at the bearer gate. `expected` is the configured
/// token; `authorization` the `Authorization` header, when present
/// and readable as text.
pub fn check_bearer(expected: Option<&str>, authorization: Option<&str>) -> (r: BearerCheck)
    ensures
        r == bearer_verdict(
            match expected { Some(t) => Some(t@), None => None },
            match authorization { Some(a) => Some(a@), None => None },
        ),
{
    let expected = match expected {
        None => return BearerCheck::Open,
        Some(t) => t,
    };
    let presented = match authorization {
        Some(a) => match strip_prefix_chars(a, "Bearer ") {
            Some(rest) => {
                proof {
                    reveal_strlit("Bearer ");
                }
                let c = chars_of(rest.as_str());
                let t = trim_chars(c.as_slice());
                string_of(t.as_slice())
            },
            None => String::new(),
        },
        None => String::new(),
    };
    if presented.as_str().is_empty() {
        return BearerCheck::Missing;
    }
    if !ct_eq_str(presented.as_str(), expected) {
        return BearerCheck::Invalid;
    }
    BearerCheck::Accepted
}

impl BearerCheck {
    /// The request may proceed.
    pub fn passes(&self) -> (r: bool)
        ensures
            r == (*self == BearerCheck::Open || *self == BearerCheck::Accepted),
    {
        match self {
            BearerCheck::Open | BearerCheck::Accepted => true,
            _ => false,
        }
    }

    /// The `message` of the structured `401 unauthorized` reply.
    pub fn rejection_message(&self) -> (m: Option<&'static str>)
        ensures
            *self == BearerCheck::Missing ==> (m matches Some(t) && t@ == "missing bearer token"@),
            *self == BearerCheck::Invalid ==> (m matches Some(t) && t@ == "invalid bearer token"@),
            (*self == BearerCheck::Open || *self == BearerCheck::Accepted) ==> m is None,
    {
        match self {
            BearerCheck::Missing => Some("missing bearer token"),
            BearerCheck::Invalid => Some("invalid bearer token"),
            _ => None,
        }
    }
}

/// Law: with a bearer token configured, a request passes only when
/// it presents exactly that token; with none configured, every request
/// passes.
pub proof fn gate_admits_only_the_token(expected: Option<Seq<char>>, authorization: Option<Seq<char>>)
    ensures
        expected is None ==> bearer_verdict(expected, authorization) == BearerCheck::Open,
        expected matches Some(t) ==> (bearer_verdict(expected, authorization) == BearerCheck::Accepted
            <==> (t.len() > 0 && presented_token(authorization) == t)),
{
}

/// Law: with a token `t`
/// configured, `Authorization: Bearer <t>` passes; `Bearer <u>` for any
/// other token `u` is invalid; a missing header, or one that does not
/// begin with exactly `Bearer `, is answered as a missing token.
pub proof fn bearer_header_forms(t: Seq<char>, u: Seq<char>, a: Seq<char>)
    requires
        t.len() > 0,
        !is_whitespace(t[0]),
        !is_whitespace(t.last()),
        u.len() > 0,
        !is_whitespace(u[0]),
        !is_whitespace(u.last()),
    ensures
        bearer_verdict(Some(t), Some("Bearer "@ + t)) == BearerCheck::Accepted,
        u != t ==> bearer_verdict(Some(t), Some("Bearer "@ + u)) == BearerCheck::Invalid,
        bearer_verdict(Some(t), None) == BearerCheck::Missing,
        (a.len() < 7 || a.take(7) != "Bearer "@) ==> bearer_verdict(Some(t), Some(a)) == BearerCheck::Missing,
{
    reveal_strlit("Bearer ");
    assert(("Bearer "@ + t).take(7) =~= "Bearer "@);
    assert(("Bearer "@ + t).skip(7) =~= t);
    assert(("Bearer "@ + u).take(7) =~= "Bearer "@);
    assert(("Bearer "@ + u).skip(7) =~= u);
    assert(trim_start(t) == t);
    assert(trim_end(t) == t);
    assert(trim_start(u) == u);
    assert(trim_end(u) == u);
}

} // verus!
