//! W3C trace context on responses: echo the caller's `trace_id` when
//! its `traceparent` is well formed, otherwise mint one; pair it with
//! a fresh span id.

use vstd::prelude::*;
use crate::text::{chars_of, string_of, hex_string, hex_bytes, is_hex_char, ascii_lowercase, push_char, lemma_hex_bytes_is_hex};

verus! {

/// `s` split at every `-` (`str::split('-')`): always at least one
/// part; consecutive dashes give empty parts.
pub open spec fn split_dash(s: Seq<char>) -> Seq<Seq<char>>
    decreases s.len(),
{
    if s.len() == 0 {
        seq![Seq::<char>::empty()]
    } else if s.last() == '-' {
        split_dash(s.drop_last()).push(Seq::<char>::empty())
    } else {
        let p = split_dash(s.drop_last());
        p.update(p.len() - 1, p.last().push(s.last()))
    }
}

proof fn lemma_split_dash_nonempty(s: Seq<char>)
    ensures
        split_dash(s).len() >= 1,
    decreases s.len(),
{
    if s.len() > 0 {
        lemma_split_dash_nonempty(s.drop_last());
    }
}

/// The trace id a `traceparent` value carries: its second `-`-separated
/// field, lowercased, when the value has exactly four fields and that
/// one is 32 hex digits.
pub open spec fn trace_id_in(v: Seq<char>) -> Option<Seq<char>> {
    let parts = split_dash(v);
    if parts.len() == 4 && parts[1].len() == 32 && (forall|i: int| 0 <= i < 32 ==> is_hex_char(
        #[trigger] parts[1][i],
    )) {
        Some(ascii_lowercase(parts[1]))
    } else {
        None
    }
}

fn split_dash_exec(s: &str) -> (r: Vec<Vec<char>>)
    ensures
        r@.len() == split_dash(s@).len(),
        forall|i: int| 0 <= i < r@.len() ==> (#[trigger] r@[i])@ == split_dash(s@)[i],
{
    let c = chars_of(s);
    let mut parts: Vec<Vec<char>> = Vec::new();
    parts.push(Vec::new());
    let mut i: usize = 0;
    proof {
        assert(c@.take(0) =~= Seq::<char>::empty());
        assert(parts@[0]@ =~= Seq::<char>::empty());
    }
    while i < c.len()
        invariant
            c@ == s@,
            i <= c@.len(),
            parts@.len() == split_dash(c@.take(i as int)).len(),
            parts@.len() >= 1,
            forall|k: int| 0 <= k < parts@.len() ==> (#[trigger] parts@[k])@ == split_dash(c@.take(i as int))[k],
        decreases c@.len() - i,
    {
        let ch = c[i];
        let ghost prev = c@.take(i as int);
        let ghost old_parts = parts@;
        proof {
            assert(c@.take(i + 1).drop_last() =~= prev);
            lemma_split_dash_nonempty(prev);
        }
        if ch == '-' {
            parts.push(Vec::new());
            proof {
                assert forall|k: int| 0 <= k < parts@.len() implies (#[trigger] parts@[k])@ == split_dash(c@.take(i + 1))[k] by {
                    if k == parts@.len() - 1 {
                        assert(parts@[k]@ =~= Seq::<char>::empty());
                    }
                }
            }
        } else {
            let last = parts.len() - 1;
            let mut cur = parts.pop().unwrap();
            cur.push(ch);
            parts.push(cur);
            proof {
                assert forall|k: int| 0 <= k < parts@.len() implies (#[trigger] parts@[k])@ == split_dash(c@.take(i + 1))[k] by {
                    if k < last {
                        assert(parts@[k] == old_parts[k]);
                    }
                }
            }
        }
        i = i + 1;
    }
    proof {
        assert(c@.take(c@.len() as int) =~= c@);
    }
    parts
}

/// The trace id carried by an inbound `traceparent` header value, when
/// it is well formed; `None` otherwise, so malformed input is never
/// trusted.
pub fn extract_trace_id(traceparent: &str) -> (r: Option<String>)
    ensures
        match trace_id_in(traceparent@) {
            Some(id) => r matches Some(s) && s@ == id,
            None => r is None,
        },
{
    let parts = split_dash_exec(traceparent);
    if parts.len() != 4 || parts[1].len() != 32 {
        return None;
    }
    let field = &parts[1];
    let mut out: Vec<char> = Vec::new();
    let mut i: usize = 0;
    while i < 32
        invariant
            field@.len() == 32,
            field@ == split_dash(traceparent@)[1],
            split_dash(traceparent@).len() == 4,
            i <= 32,
            forall|k: int| 0 <= k < i ==> is_hex_char(#[trigger] field@[k]),
            out@ == ascii_lowercase(field@.take(i as int)),
        decreases 32 - i,
    {
        let ch = field[i];
        let hex = ('0' <= ch && ch <= '9') || ('a' <= ch && ch <= 'f') || ('A' <= ch && ch <= 'F');
        if !hex {
            assert(!is_hex_char(field@[i as int]));
            return None;
        }
        let l = if 'A' <= ch && ch <= 'Z' { ((ch as u8) + 32) as char } else { ch };
        out.push(l);
        assert(ascii_lowercase(field@.take(i + 1)) =~= ascii_lowercase(field@.take(i as int)).push(l));
        i = i + 1;
    }
    assert(field@.take(32) =~= field@);
    Some(string_of(out.as_slice()))
}

/// One xorshift64 step.
pub open spec fn xorshift(s: u64) -> u64 {
    let a = s ^ (s << 13u64);
    let b = a ^ (a >> 7u64);
    b ^ (b << 17u64)
}

/// The generator state after `k` steps from `seed`.
pub open spec fn xorshift_state(seed: u64, k: nat) -> u64
    decreases k,
{
    if k == 0 { seed } else { xorshift(xorshift_state(seed, (k - 1) as nat)) }
}

/// `n` pseudo-random bytes from `seed`: the low byte of each of the
/// next `n` generator states.
pub open spec fn random_bytes_of(seed: u64, n: nat) -> Seq<u8> {
    Seq::new(n, |i: int| (xorshift_state(seed, (i + 1) as nat) & 0xff) as u8)
}

fn xorshift_exec(s: u64) -> (r: u64)
    ensures
        r == xorshift(s),
{
    let a = s ^ (s << 13u64);
    let b = a ^ (a >> 7u64);
    b ^ (b << 17u64)
}

/// `n` pseudo-random bytes drawn from `seed` (not for cryptography).
pub fn random_bytes(seed: u64, n: usize) -> (r: Vec<u8>)
    ensures
        r@ == random_bytes_of(seed, n as nat),
{
    let mut out: Vec<u8> = Vec::new();
    let mut state = seed;
    let mut i: usize = 0;
    while i < n
        invariant
            i <= n,
            state == xorshift_state(seed, i as nat),
            out@ =~= random_bytes_of(seed, i as nat),
        decreases n - i,
    {
        state = xorshift_exec(state);
        let b = (state & 0xff) as u8;
        out.push(b);
        i = i + 1;
    }
    out
}

/// A fresh 32-hex-digit (128-bit) trace id drawn from `seed`.
pub fn random_hex_128(seed: u64) -> (r: String)
    ensures
        r@ == hex_bytes(random_bytes_of(seed, 16)),
        r@.len() == 32,
{
    let b = random_bytes(seed, 16);
    hex_string(b.as_slice())
}

/// A fresh 16-hex-digit (64-bit) span id drawn from `seed`.
pub fn generate_span_id(seed: u64) -> (r: String)
    ensures
        r@ == hex_bytes(random_bytes_of(seed, 8)),
        r@.len() == 16,
{
    let b = random_bytes(seed, 8);
    hex_string(b.as_slice())
}

/// The trace id of a response: the one the caller's `traceparent`
/// carries when well formed, otherwise one minted from `seed`.
pub fn extract_or_generate_trace_id(traceparent: Option<&str>, seed: u64) -> (r: String)
    ensures
        match traceparent {
            Some(v) => match trace_id_in(v@) {
                Some(id) => r@ == id,
                None => r@ == hex_bytes(random_bytes_of(seed, 16)),
            },
            None => r@ == hex_bytes(random_bytes_of(seed, 16)),
        },
{
    match traceparent {
        Some(v) => match extract_trace_id(v) {
            Some(id) => id,
            None => random_hex_128(seed),
        },
        None => random_hex_128(seed),
    }
}

/// The `traceparent` value a response carries: `00-<trace>-<span>-01`.
pub fn traceparent_value(trace_id: &str, span_id: &str) -> (r: String)
    ensures
        r@ == "00-"@ + trace_id@ + "-"@ + span_id@ + "-01"@,
{
    let mut out = String::from_str("00-");
    out.append(trace_id);
    out.append("-");
    out.append(span_id);
    out.append("-01");
    out
}


/// The trace id a response carries for a `traceparent` value and a seed.
pub open spec fn response_trace_id(traceparent: Option<Seq<char>>, seed: u64) -> Seq<char> {
    match traceparent {
        Some(v) => match trace_id_in(v) {
            Some(id) => id,
            None => hex_bytes(random_bytes_of(seed, 16)),
        },
        None => hex_bytes(random_bytes_of(seed, 16)),
    }
}

/// Law: every response's trace id is 32 hex digits, whether echoed or
/// minted.
pub proof fn trace_id_is_32_hex(traceparent: Option<Seq<char>>, seed: u64)
    ensures
        response_trace_id(traceparent, seed).len() == 32,
        forall|i: int| 0 <= i < 32 ==> is_hex_char(#[trigger] response_trace_id(traceparent, seed)[i]),
{
    lemma_hex_bytes_is_hex(random_bytes_of(seed, 16));
}

} // verus!
