//! Boot-time preflight warnings: postures that are accepted but are
//! likely footguns, each with a stable id `W-<n>` that log pipelines
//! can key on. Warnings never abort boot.

use vstd::prelude::*;
use crate::config::AppConfig;
use crate::net::{BindAddr, is_loopback, bind_addr_text};
use crate::text::{decimal, push_decimal};

verus! {

/// Ceiling above which `copy_inactivity_secs` is flagged (W-5).
pub const COPY_INACTIVITY_WARN_CEILING_SECS: u64 = 300;

/// Ceiling above which `max_request_bytes` is flagged (W-6): 100 MiB.
pub const MAX_REQUEST_BYTES_WARN_CEILING: u64 = 104_857_600;

/// One boot-time warning: a stable id and the operator-facing line.
#[derive(Debug, Clone, PartialEq, Eq)]
pub struct BootWarning {
    pub id: &'static str,
    pub message: String,
}

pub const W1_LEAD: &'static str = "[W-1] security.inter_service_token_env is unset AND bind ";
pub const W1_TAIL: &'static str = " is non-loopback AND security.trust_network=false. `/v1/files*` are open to any network caller. Every unauth `POST /v1/files/copy` triggers backend I/O and S3-billed API calls; every unauth `GET /v1/files` enumerates the FS root or the S3 bucket. Set security.inter_service_token_env, OR set security.trust_network=true if a reverse proxy already authenticates every request (see SECURITY.md).";
pub const W2_TEXT: &'static str = "[W-2] security.trust_network=true AND security.inter_service_token_env is unset — every request that reaches `/v1/files*` is trusted. This is correct ONLY if a reverse proxy / service mesh is genuinely in front of FileFerry AND authenticates every request. If the proxy is misconfigured or absent, FileFerry is fully open. Consider defense-in-depth: set inter_service_token_env even behind a proxy.";
pub const W3_LEAD: &'static str = "[W-3] FILEFERRY_ADMIN_ENABLED is set AND bind ";
pub const W3_TAIL: &'static str = " is non-loopback. `GET /api` serves the OpenAPI summary (route table + version + DTO shapes) to any caller that hits the endpoint. Disable via unsetting the env var unless the endpoint is genuinely needed by external tooling.";
pub const W4_LEAD: &'static str = "[W-4] documentation_enabled=true in YAML AND bind ";
pub const W4_TAIL: &'static str = " is non-loopback. `/api` is currently 404'd by the FILEFERRY_ADMIN_ENABLED gate, but a future operator setting the env var (e.g. for a `doctor` diagnostic) immediately surfaces the OpenAPI summary. For defence-in-depth on public edges, set documentation_enabled: false in the YAML too.";
pub const W5_LEAD: &'static str = "[W-5] limits.copy_inactivity_secs = ";
pub const W5_MID: &'static str = "s exceeds the recommended ";
pub const W5_MORE: &'static str = "s ceiling. Slow-drip peers can now hold copy streams open for arbitrarily long (F3 defence weakened). Confirm the deployment genuinely has a slow-but- legitimate source that needs >";
pub const W5_TAIL: &'static str = "s between successful reads.";
pub const W6_LEAD: &'static str = "[W-6] limits.max_request_bytes = ";
pub const W6_MID: &'static str = " bytes exceeds the recommended ";
pub const W6_TAIL: &'static str = " (100 MiB) ceiling. FileFerry does NOT read file payloads out of the request body — copies happen backend-to-backend — so the request body only carries JSON metadata. If you meant to raise a per-file cap, set limits.max_response_bytes instead.";

/// Whether check `n` (1 to 6) fires for `cfg` bound at `addr`.
pub open spec fn check_fires(n: nat, cfg: AppConfig, addr: BindAddr) -> bool {
    if n == 1 {
        // Non-loopback bind, no token, network not trusted.
        !is_loopback(addr) && cfg.security.inter_service_token is None && !cfg.security.trust_network
    } else if n == 2 {
        // Network trusted and no token either.
        cfg.security.trust_network && cfg.security.inter_service_token is None
    } else if n == 3 {
        // `/api` served on a non-loopback bind.
        cfg.security.admin_enabled && !is_loopback(addr)
    } else if n == 4 {
        // Docs on while the admin gate is off, on a non-loopback bind.
        cfg.documentation_enabled && !cfg.security.admin_enabled && !is_loopback(addr)
    } else if n == 5 {
        cfg.limits.copy_inactivity_secs > COPY_INACTIVITY_WARN_CEILING_SECS
    } else if n == 6 {
        cfg.limits.max_request_bytes > MAX_REQUEST_BYTES_WARN_CEILING
    } else {
        false
    }
}

/// The stable id of check `n`.
pub open spec fn warning_id(n: nat) -> Seq<char> {
    if n == 1 { "W-1"@ }
    else if n == 2 { "W-2"@ }
    else if n == 3 { "W-3"@ }
    else if n == 4 { "W-4"@ }
    else if n == 5 { "W-5"@ }
    else { "W-6"@ }
}

/// The operator-facing line of check `n`.
pub open spec fn warning_text(n: nat, cfg: AppConfig, addr: BindAddr) -> Seq<char> {
    if n == 1 {
        W1_LEAD@ + bind_addr_text(addr) + W1_TAIL@
    } else if n == 2 {
        W2_TEXT@
    } else if n == 3 {
        W3_LEAD@ + bind_addr_text(addr) + W3_TAIL@
    } else if n == 4 {
        W4_LEAD@ + bind_addr_text(addr) + W4_TAIL@
    } else if n == 5 {
        W5_LEAD@ + decimal(cfg.limits.copy_inactivity_secs as nat) + W5_MID@ + decimal(
            COPY_INACTIVITY_WARN_CEILING_SECS as nat,
        ) + W5_MORE@ + decimal(COPY_INACTIVITY_WARN_CEILING_SECS as nat) + W5_TAIL@
    } else {
        W6_LEAD@ + decimal(cfg.limits.max_request_bytes as nat) + W6_MID@ + decimal(
            MAX_REQUEST_BYTES_WARN_CEILING as nat,
        ) + W6_TAIL@
    }
}

/// The checks among 1 to `n` that fire, in increasing order.
pub open spec fn fired_upto(cfg: AppConfig, addr: BindAddr, n: nat) -> Seq<nat>
    decreases n,
{
    if n == 0 {
        Seq::empty()
    } else if check_fires(n, cfg, addr) {
        fired_upto(cfg, addr, (n - 1) as nat).push(n)
    } else {
        fired_upto(cfg, addr, (n - 1) as nat)
    }
}

/// The checks that fire for `cfg` bound at `addr`, in id order.
pub open spec fn fired_checks(cfg: AppConfig, addr: BindAddr) -> Seq<nat> {
    fired_upto(cfg, addr, 6)
}

/// `ws` are exactly the warnings of the checks `fired`, in order.
pub open spec fn warnings_are(ws: Seq<BootWarning>, fired: Seq<nat>, cfg: AppConfig, addr: BindAddr) -> bool {
    &&& ws.len() == fired.len()
    &&& forall|i: int| 0 <= i < ws.len() ==> {
        &&& (#[trigger] ws[i]).id@ == warning_id(fired[i])
        &&& ws[i].message@ == warning_text(fired[i], cfg, addr)
    }
}

/// The warning check `n` gives when it fires.
pub open spec fn is_warning(w: BootWarning, n: nat, cfg: AppConfig, addr: BindAddr) -> bool {
    w.id@ == warning_id(n) && w.message@ == warning_text(n, cfg, addr)
}

/// What check `n` reports: its warning exactly when it fires.
pub open spec fn reports(r: Option<BootWarning>, n: nat, cfg: AppConfig, addr: BindAddr) -> bool {
    match r {
        Some(w) => check_fires(n, cfg, addr) && is_warning(w, n, cfg, addr),
        None => !check_fires(n, cfg, addr),
    }
}

/// W-1: a non-loopback bind with no bearer token and no trusted
/// proxy leaves `/v1/files*` open to any caller.
fn check_unauth_non_loopback(cfg: &AppConfig, addr: &BindAddr) -> (r: Option<BootWarning>)
    ensures
        reports(r, 1, *cfg, *addr),
{
    if addr.is_loopback() || cfg.security.inter_service_token.is_some() || cfg.security.trust_network {
        return None;
    }
    let mut m = String::new();
    m.append(W1_LEAD);
    addr.push_text(&mut m);
    m.append(W1_TAIL);
    proof { reveal_strlit("W-1"); }
    Some(BootWarning { id: "W-1", message: m })
}

/// W-2: the proxy is trusted and no token backs it up.
pub fn check_trust_network_without_token(cfg: &AppConfig) -> (r: Option<BootWarning>)
    ensures
        forall|addr: BindAddr| #[trigger] reports(r, 2, *cfg, addr),
{
    if cfg.security.trust_network && cfg.security.inter_service_token.is_none() {
        let mut m = String::new();
        m.append(W2_TEXT);
        proof { reveal_strlit("W-2"); }
        return Some(BootWarning { id: "W-2", message: m });
    }
    None
}

/// W-3: `/api` is served on a non-loopback bind.
fn check_admin_enabled_on_non_loopback(cfg: &AppConfig, addr: &BindAddr) -> (r: Option<BootWarning>)
    ensures
        reports(r, 3, *cfg, *addr),
{
    if cfg.security.admin_enabled && !addr.is_loopback() {
        let mut m = String::new();
        m.append(W3_LEAD);
        addr.push_text(&mut m);
        m.append(W3_TAIL);
        proof { reveal_strlit("W-3"); }
        return Some(BootWarning { id: "W-3", message: m });
    }
    None
}

/// W-4: documentation is on in the YAML on a non-loopback bind while
/// only the admin gate keeps `/api` dark.
fn check_documentation_enabled_on_non_loopback(cfg: &AppConfig, addr: &BindAddr) -> (r: Option<BootWarning>)
    ensures
        reports(r, 4, *cfg, *addr),
{
    if cfg.documentation_enabled && !cfg.security.admin_enabled && !addr.is_loopback() {
        let mut m = String::new();
        m.append(W4_LEAD);
        addr.push_text(&mut m);
        m.append(W4_TAIL);
        proof { reveal_strlit("W-4"); }
        return Some(BootWarning { id: "W-4", message: m });
    }
    None
}

/// W-5: the copy inactivity timeout is above the recommended ceiling.
pub fn check_copy_inactivity_too_generous(cfg: &AppConfig) -> (r: Option<BootWarning>)
    ensures
        forall|addr: BindAddr| #[trigger] reports(r, 5, *cfg, addr),
{
    if cfg.limits.copy_inactivity_secs > COPY_INACTIVITY_WARN_CEILING_SECS {
        let mut m = String::new();
        m.append(W5_LEAD);
        push_decimal(&mut m, cfg.limits.copy_inactivity_secs);
        m.append(W5_MID);
        push_decimal(&mut m, COPY_INACTIVITY_WARN_CEILING_SECS);
        m.append(W5_MORE);
        push_decimal(&mut m, COPY_INACTIVITY_WARN_CEILING_SECS);
        m.append(W5_TAIL);
        proof { reveal_strlit("W-5"); }
        return Some(BootWarning { id: "W-5", message: m });
    }
    None
}

/// W-6: the request-body cap is above 100 MiB, though bodies carry
/// JSON metadata only.
pub fn check_max_request_bytes_unusually_large(cfg: &AppConfig) -> (r: Option<BootWarning>)
    ensures
        forall|addr: BindAddr| #[trigger] reports(r, 6, *cfg, addr),
{
    if cfg.limits.max_request_bytes > MAX_REQUEST_BYTES_WARN_CEILING {
        let mut m = String::new();
        m.append(W6_LEAD);
        push_decimal(&mut m, cfg.limits.max_request_bytes);
        m.append(W6_MID);
        push_decimal(&mut m, MAX_REQUEST_BYTES_WARN_CEILING);
        m.append(W6_TAIL);
        proof { reveal_strlit("W-6"); }
        return Some(BootWarning { id: "W-6", message: m });
    }
    None
}

/// Appends the report of check `n` to warnings that cover the checks
/// before it.
fn add_report(out: &mut Vec<BootWarning>, r: Option<BootWarning>, Ghost(n): Ghost<nat>, Ghost(cfg): Ghost<AppConfig>, Ghost(addr): Ghost<BindAddr>)
    requires
        n >= 1,
        warnings_are(old(out)@, fired_upto(cfg, addr, (n - 1) as nat), cfg, addr),
        reports(r, n, cfg, addr),
    ensures
        warnings_are(final(out)@, fired_upto(cfg, addr, n), cfg, addr),
{
    let ghost before = out@;
    match r {
        Some(w) => {
            out.push(w);
            assert(warnings_are(out@, fired_upto(cfg, addr, n), cfg, addr)) by {
                let f = fired_upto(cfg, addr, n);
                assert(forall|i: int| 0 <= i < before.len() ==> out@[i] == before[i]);
                assert(forall|i: int| 0 <= i < before.len() ==> f[i] == fired_upto(cfg, addr, (n - 1) as nat)[i]);
            }
        },
        None => {},
    }
}

/// Runs every check against `cfg` bound at `addr` and returns the
/// warnings that fire, in id order.
pub fn preflight(cfg: &AppConfig, addr: &BindAddr) -> (r: Vec<BootWarning>)
    ensures
        warnings_are(r@, fired_checks(*cfg, *addr), *cfg, *addr),
{
    let ghost c = *cfg;
    let ghost a = *addr;
    let mut out: Vec<BootWarning> = Vec::new();
    add_report(&mut out, check_unauth_non_loopback(cfg, addr), Ghost(1), Ghost(c), Ghost(a));
    add_report(&mut out, check_trust_network_without_token(cfg), Ghost(2), Ghost(c), Ghost(a));
    add_report(&mut out, check_admin_enabled_on_non_loopback(cfg, addr), Ghost(3), Ghost(c), Ghost(a));
    add_report(&mut out, check_documentation_enabled_on_non_loopback(cfg, addr), Ghost(4), Ghost(c), Ghost(a));
    add_report(&mut out, check_copy_inactivity_too_generous(cfg), Ghost(5), Ghost(c), Ghost(a));
    add_report(&mut out, check_max_request_bytes_unusually_large(cfg), Ghost(6), Ghost(c), Ghost(a));
    out
}

proof fn lemma_fired_upto_increasing(cfg: AppConfig, addr: BindAddr, n: nat)
    ensures
        forall|i: int, j: int| 0 <= i < j < fired_upto(cfg, addr, n).len() ==> fired_upto(cfg, addr, n)[i] < fired_upto(cfg, addr, n)[j],
        forall|i: int| 0 <= i < fired_upto(cfg, addr, n).len() ==> 1 <= #[trigger] fired_upto(cfg, addr, n)[i] <= n,
    decreases n,
{
    if n > 0 {
        lemma_fired_upto_increasing(cfg, addr, (n - 1) as nat);
        let prev = fired_upto(cfg, addr, (n - 1) as nat);
        let f = fired_upto(cfg, addr, n);
        if check_fires(n, cfg, addr) {
            assert(f == prev.push(n));
            assert forall|i: int| 0 <= i < f.len() implies 1 <= #[trigger] f[i] <= n by {
                if i < prev.len() {
                    assert(f[i] == prev[i]);
                }
            }
            assert forall|i: int, j: int| 0 <= i < j < f.len() implies f[i] < f[j] by {
                assert(f[i] == prev[i]);
                if j < prev.len() {
                    assert(f[j] == prev[j]);
                }
            }
        }
    }
}

/// Law: the warnings come out in strictly increasing check order, so
/// no id appears twice.
pub proof fn warning_ids_are_unique(cfg: AppConfig, addr: BindAddr)
    ensures
        forall|i: int, j: int| 0 <= i < j < fired_checks(cfg, addr).len() ==> warning_id(fired_checks(cfg, addr)[i]) != warning_id(fired_checks(cfg, addr)[j]),
{
    lemma_fired_upto_increasing(cfg, addr, 6);
    reveal_strlit("W-1");
    reveal_strlit("W-2");
    reveal_strlit("W-3");
    reveal_strlit("W-4");
    reveal_strlit("W-5");
    reveal_strlit("W-6");
    let f = fired_checks(cfg, addr);
    assert forall|i: int, j: int| 0 <= i < j < f.len() implies warning_id(f[i]) != warning_id(f[j]) by {
        assert(f[i] < f[j]);
        assert(warning_id(f[i])[2] != warning_id(f[j])[2]);
    }
}

proof fn lemma_fired_upto_contains(cfg: AppConfig, addr: BindAddr, n: nat, k: nat)
    ensures
        fired_upto(cfg, addr, n).contains(k) <==> (1 <= k <= n && check_fires(k, cfg, addr)),
    decreases n,
{
    if n > 0 {
        lemma_fired_upto_contains(cfg, addr, (n - 1) as nat, k);
        let prev = fired_upto(cfg, addr, (n - 1) as nat);
        if check_fires(n, cfg, addr) {
            let f = prev.push(n);
            assert(f[f.len() - 1] == n);
            if prev.contains(k) {
                let i = choose|i: int| 0 <= i < prev.len() && prev[i] == k;
                assert(f[i] == k);
            }
            if f.contains(k) && k != n {
                let i = choose|i: int| 0 <= i < f.len() && f[i] == k;
                assert(i < prev.len());
                assert(prev[i] == k);
            }
        }
    }
}

/// Law: each warning fires exactly on the posture it names, whatever
/// else is configured. A bind is loopback when its first octet is 127;
/// on a loopback bind none of the bind-dependent warnings (W-1, W-3,
/// W-4) fires.
pub proof fn warnings_fire_on_their_postures(cfg: AppConfig, addr: BindAddr)
    ensures
        fired_checks(cfg, addr).contains(1) <==> (addr.a != 127 && cfg.security.inter_service_token is None
            && !cfg.security.trust_network),
        fired_checks(cfg, addr).contains(2) <==> (cfg.security.trust_network && cfg.security.inter_service_token is None),
        fired_checks(cfg, addr).contains(3) <==> (cfg.security.admin_enabled && addr.a != 127),
        fired_checks(cfg, addr).contains(4) <==> (cfg.documentation_enabled && !cfg.security.admin_enabled && addr.a != 127),
        fired_checks(cfg, addr).contains(5) <==> cfg.limits.copy_inactivity_secs > 300,
        fired_checks(cfg, addr).contains(6) <==> cfg.limits.max_request_bytes > 104_857_600,
        addr.a == 127 ==> !fired_checks(cfg, addr).contains(1) && !fired_checks(cfg, addr).contains(3)
            && !fired_checks(cfg, addr).contains(4),
        warning_id(1) == "W-1"@ && warning_id(2) == "W-2"@ && warning_id(3) == "W-3"@,
        warning_id(4) == "W-4"@ && warning_id(5) == "W-5"@ && warning_id(6) == "W-6"@,
{
    lemma_fired_upto_contains(cfg, addr, 6, 1);
    lemma_fired_upto_contains(cfg, addr, 6, 2);
    lemma_fired_upto_contains(cfg, addr, 6, 3);
    lemma_fired_upto_contains(cfg, addr, 6, 4);
    lemma_fired_upto_contains(cfg, addr, 6, 5);
    lemma_fired_upto_contains(cfg, addr, 6, 6);
}

} // verus!
