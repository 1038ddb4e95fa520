//! The five security headers every response carries (unless a
//! handler already set them).

use vstd::prelude::*;

verus! {

/// The default security headers, `(name, value)`, in the order they
/// are applied.
pub open spec fn security_header_pairs() -> Seq<(Seq<char>, Seq<char>)> {
    seq![
        ("content-security-policy"@, "default-src 'none'; frame-ancestors 'none'"@),
        ("strict-transport-security"@, "max-age=63072000; includeSubDomains; preload"@),
        ("x-frame-options"@, "DENY"@),
        ("x-content-type-options"@, "nosniff"@),
        ("referrer-policy"@, "no-referrer"@),
    ]
}

/// The default security headers: a strict CSP, two-year HSTS with
/// preload, frame denial, no MIME sniffing, no referrer.
pub fn security_headers() -> (r: Vec<(&'static str, &'static str)>)
    ensures
        r@.len() == security_header_pairs().len(),
        forall|i: int| 0 <= i < r@.len() ==> (#[trigger] r@[i]).0@ == security_header_pairs()[i].0
            && r@[i].1@ == security_header_pairs()[i].1,
{
    let mut v = Vec::new();
    v.push(("content-security-policy", "default-src 'none'; frame-ancestors 'none'"));
    v.push(("strict-transport-security", "max-age=63072000; includeSubDomains; preload"));
    v.push(("x-frame-options", "DENY"));
    v.push(("x-content-type-options", "nosniff"));
    v.push(("referrer-policy", "no-referrer"));
    v
}

} // verus!
