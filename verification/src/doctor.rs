//! The `fileferry doctor` report: a configuration summary with every
//! preflight warning, and the exit code it maps to. Secrets are never
//! printed: a configured bearer token shows as `SET (masked)`, S3
//! credentials not at all.

use vstd::prelude::*;
use crate::boot_warnings::{preflight, fired_checks, warning_text, warnings_are, BootWarning};
use crate::config::AppConfig;
use crate::net::{BindAddr, bind_addr_text};
use crate::text::{decimal, bool_text, push_decimal, push_bool};

verus! {

/// The version the report names.
pub const VERSION: &'static str = "0.2.2-alpha";

/// The warning lines of the report: two spaces, the message, newline.
pub open spec fn warning_lines(fired: Seq<nat>, cfg: AppConfig, addr: BindAddr) -> Seq<char>
    decreases fired.len(),
{
    if fired.len() == 0 {
        Seq::empty()
    } else {
        warning_lines(fired.drop_last(), cfg, addr) + "  "@ + warning_text(fired.last(), cfg, addr)
            + "\n"@
    }
}

/// The report header and the summary title.
pub open spec fn header_lines() -> Seq<char> {
    "fileferry doctor "@ + VERSION@ + "\n"@ + "==================================================\n"@ + "\n"@ + "Config summary:\n"@
}

/// The port line.
pub open spec fn port_line(cfg: AppConfig) -> Seq<char> {
    "  port                        "@ + decimal(cfg.port as nat) + "\n"@
}

/// The bind-address line.
pub open spec fn bind_line(addr: BindAddr) -> Seq<char> {
    "  bind (expected)             "@ + bind_addr_text(addr) + "\n"@
}

/// The data-directory line.
pub open spec fn directory_line(cfg: AppConfig) -> Seq<char> {
    "  fs.data_directory           "@ + cfg.fs.data_directory@ + "\n"@
}

/// Whether S3 is configured.
pub open spec fn s3_line(cfg: AppConfig) -> Seq<char> {
    "  s3 backend                  "@ + (if cfg.s3 is Some { "configured"@ } else { "disabled"@ }) + "\n"@
}

/// The documentation flag.
pub open spec fn documentation_line(cfg: AppConfig) -> Seq<char> {
    "  documentation_enabled       "@ + bool_text(cfg.documentation_enabled) + "\n"@
}

/// Whether a bearer token is set, never its value.
pub open spec fn token_line(cfg: AppConfig) -> Seq<char> {
    "  security.inter_service_tok  "@ + (if cfg.security.inter_service_token is Some { "SET (masked)"@ } else { "unset"@ }) + "\n"@
}

/// The trusted-network flag.
pub open spec fn trust_line(cfg: AppConfig) -> Seq<char> {
    "  security.trust_network      "@ + bool_text(cfg.security.trust_network) + "\n"@
}

/// The admin flag.
pub open spec fn admin_line(cfg: AppConfig) -> Seq<char> {
    "  security.admin_enabled      "@ + bool_text(cfg.security.admin_enabled) + " (FILEFERRY_ADMIN_ENABLED)\n"@
}

/// The copy inactivity limit.
pub open spec fn inactivity_line(cfg: AppConfig) -> Seq<char> {
    "  limits.copy_inactivity_secs "@ + decimal(cfg.limits.copy_inactivity_secs as nat) + "\n"@
}

/// The request-body limit.
pub open spec fn request_line(cfg: AppConfig) -> Seq<char> {
    "  limits.max_request_bytes    "@ + decimal(cfg.limits.max_request_bytes as nat) + "\n"@
}

/// The summary block of the report.
pub open spec fn summary_text(cfg: AppConfig, addr: BindAddr) -> Seq<char> {
    header_lines() + port_line(cfg) + bind_line(addr) + directory_line(cfg) + s3_line(cfg) + documentation_line(cfg) + token_line(cfg) + trust_line(cfg) + admin_line(cfg) + inactivity_line(cfg) + request_line(cfg) + "\n"@
}

/// The full report for `cfg` bound at `addr`.
pub open spec fn report_text(cfg: AppConfig, addr: BindAddr) -> Seq<char> {
    let fired = fired_checks(cfg, addr);
    let n = fired.len();
    summary_text(cfg, addr) + (if n == 0 {
        "Preflight checks: OK  (0 warnings — green)\n"@
    } else {
        "Preflight checks: "@ + decimal(n) + " warning(s) surfaced — amber\n"@ + "\n"@
            + warning_lines(fired, cfg, addr)
    }) + "\n"@ + "Exit code: "@ + (if n == 0 { "0"@ } else { "1"@ }) + " ("@ + decimal(n)
        + " warning(s))\n"@
}

fn push_header(out: &mut String)
    ensures
        final(out)@ == old(out)@ + header_lines(),
{
    out.append("fileferry doctor ");
    out.append(VERSION);
    out.append("\n");
    out.append("==================================================\n");
    out.append("\n");
    out.append("Config summary:\n");
    assert(final(out)@ =~= old(out)@ + header_lines());
}

fn push_port_line(out: &mut String, cfg: &AppConfig)
    ensures
        final(out)@ == old(out)@ + port_line(*cfg),
{
    out.append("  port                        ");
    push_decimal(out, cfg.port as u64);
    out.append("\n");
    assert(final(out)@ =~= old(out)@ + port_line(*cfg));
}

fn push_bind_line(out: &mut String, addr: &BindAddr)
    ensures
        final(out)@ == old(out)@ + bind_line(*addr),
{
    out.append("  bind (expected)             ");
    addr.push_text(out);
    out.append("\n");
    assert(final(out)@ =~= old(out)@ + bind_line(*addr));
}

fn push_directory_line(out: &mut String, cfg: &AppConfig)
    ensures
        final(out)@ == old(out)@ + directory_line(*cfg),
{
    out.append("  fs.data_directory           ");
    out.append(cfg.fs.data_directory.as_str());
    out.append("\n");
    assert(final(out)@ =~= old(out)@ + directory_line(*cfg));
}

fn push_s3_line(out: &mut String, cfg: &AppConfig)
    ensures
        final(out)@ == old(out)@ + s3_line(*cfg),
{
    out.append("  s3 backend                  ");
    out.append(if cfg.s3.is_some() { "configured" } else { "disabled" });
    out.append("\n");
    assert(final(out)@ =~= old(out)@ + s3_line(*cfg));
}

fn push_documentation_line(out: &mut String, cfg: &AppConfig)
    ensures
        final(out)@ == old(out)@ + documentation_line(*cfg),
{
    out.append("  documentation_enabled       ");
    push_bool(out, cfg.documentation_enabled);
    out.append("\n");
    assert(final(out)@ =~= old(out)@ + documentation_line(*cfg));
}

fn push_token_line(out: &mut String, cfg: &AppConfig)
    ensures
        final(out)@ == old(out)@ + token_line(*cfg),
{
    out.append("  security.inter_service_tok  ");
    out.append(if cfg.security.inter_service_token.is_some() { "SET (masked)" } else { "unset" });
    out.append("\n");
    assert(final(out)@ =~= old(out)@ + token_line(*cfg));
}

fn push_trust_line(out: &mut String, cfg: &AppConfig)
    ensures
        final(out)@ == old(out)@ + trust_line(*cfg),
{
    out.append("  security.trust_network      ");
    push_bool(out, cfg.security.trust_network);
    out.append("\n");
    assert(final(out)@ =~= old(out)@ + trust_line(*cfg));
}

fn push_admin_line(out: &mut String, cfg: &AppConfig)
    ensures
        final(out)@ == old(out)@ + admin_line(*cfg),
{
    out.append("  security.admin_enabled      ");
    push_bool(out, cfg.security.admin_enabled);
    out.append(" (FILEFERRY_ADMIN_ENABLED)\n");
    assert(final(out)@ =~= old(out)@ + admin_line(*cfg));
}

fn push_inactivity_line(out: &mut String, cfg: &AppConfig)
    ensures
        final(out)@ == old(out)@ + inactivity_line(*cfg),
{
    out.append("  limits.copy_inactivity_secs ");
    push_decimal(out, cfg.limits.copy_inactivity_secs);
    out.append("\n");
    assert(final(out)@ =~= old(out)@ + inactivity_line(*cfg));
}

fn push_request_line(out: &mut String, cfg: &AppConfig)
    ensures
        final(out)@ == old(out)@ + request_line(*cfg),
{
    out.append("  limits.max_request_bytes    ");
    push_decimal(out, cfg.limits.max_request_bytes);
    out.append("\n");
    assert(final(out)@ =~= old(out)@ + request_line(*cfg));
}

fn summary(cfg: &AppConfig, addr: &BindAddr) -> (out: String)
    ensures
        out@ == summary_text(*cfg, *addr),
{
    let mut out = String::new();
    push_header(&mut out);
    assert(out@ =~= header_lines());
    push_port_line(&mut out, cfg);
    push_bind_line(&mut out, addr);
    push_directory_line(&mut out, cfg);
    push_s3_line(&mut out, cfg);
    push_documentation_line(&mut out, cfg);
    push_token_line(&mut out, cfg);
    push_trust_line(&mut out, cfg);
    push_admin_line(&mut out, cfg);
    push_inactivity_line(&mut out, cfg);
    push_request_line(&mut out, cfg);
    out.append("\n");
    proof {
        reveal_strlit("\n");
    }
    out
}

/// The doctor report for `cfg` bound at `addr`, and how many warnings
/// it surfaced.
pub fn write_report(cfg: &AppConfig, addr: &BindAddr) -> (r: (String, usize))
    ensures
        r.0@ == report_text(*cfg, *addr),
        r.1 == fired_checks(*cfg, *addr).len(),
{
    let mut out = summary(cfg, addr);
    let ghost summary = out@;
    let warnings = preflight(cfg, addr);
    let ghost fired = fired_checks(*cfg, *addr);
    let n = warnings.len();
    if n == 0 {
        out.append("Preflight checks: OK  (0 warnings — green)\n");
    } else {
        out.append("Preflight checks: ");
        push_decimal(&mut out, n as u64);
        out.append(" warning(s) surfaced — amber\n");
        out.append("\n");
        let ghost head = out@;
        let mut i: usize = 0;
        while i < n
            invariant
                n == warnings@.len(),
                warnings_are(warnings@, fired, *cfg, *addr),
                i <= n,
                out@ == head + warning_lines(fired.take(i as int), *cfg, *addr),
            decreases n - i,
        {
            out.append("  ");
            out.append(warnings[i].message.as_str());
            out.append("\n");
            proof {
                assert(fired.take(i + 1).drop_last() =~= fired.take(i as int));
                assert(fired.take(i + 1).last() == fired[i as int]);
                assert(out@ =~= head + warning_lines(fired.take(i + 1), *cfg, *addr));
            }
            i = i + 1;
        }
        proof {
            assert(fired.take(n as int) =~= fired);
        }
    }
    out.append("\n");
    out.append("Exit code: ");
    out.append(if n == 0 { "0" } else { "1" });
    out.append(" (");
    push_decimal(&mut out, n as u64);
    out.append(" warning(s))\n");
    assert(out@ =~= report_text(*cfg, *addr));
    (out, n)
}

/// The process exit code of `fileferry doctor`: 0 when the report is
/// clean, 1 when it surfaced warnings, 2 when the configuration could
/// not be loaded.
pub fn exit_code(warnings: Option<usize>) -> (code: i32)
    ensures
        code == (match warnings {
            None => 2int,
            Some(n) => if n == 0 { 0int } else { 1int },
        }),
{
    match warnings {
        None => 2,
        Some(0) => 0,
        Some(_) => 1,
    }
}

/// Law: the report never depends on the bearer token's value, only on
/// whether one is set, nor on the S3 credentials: two configurations
/// that differ only in those render the same report.
pub proof fn report_masks_secrets(a: AppConfig, b: AppConfig, addr: BindAddr)
    requires
        a.port == b.port,
        a.documentation_enabled == b.documentation_enabled,
        a.fs.data_directory@ == b.fs.data_directory@,
        a.s3 is Some == b.s3 is Some,
        a.security.inter_service_token is Some == b.security.inter_service_token is Some,
        a.security.trust_network == b.security.trust_network,
        a.security.admin_enabled == b.security.admin_enabled,
        a.limits.copy_inactivity_secs == b.limits.copy_inactivity_secs,
        a.limits.max_request_bytes == b.limits.max_request_bytes,
    ensures
        report_text(a, addr) == report_text(b, addr),
{
    assert(fired_checks(a, addr) == fired_checks(b, addr)) by {
        reveal_with_fuel(crate::boot_warnings::fired_upto, 7);
    }
    let f = fired_checks(a, addr);
    assert forall|k: nat| 1 <= k <= 6 implies warning_text(k, a, addr) == warning_text(k, b, addr) by {
    }
    assert(warning_lines(f, a, addr) == warning_lines(f, b, addr)) by {
        lemma_lines_same(f, a, b, addr);
    }
}

proof fn lemma_lines_same(f: Seq<nat>, a: AppConfig, b: AppConfig, addr: BindAddr)
    requires
        forall|k: nat| 1 <= k <= 6 ==> warning_text(k, a, addr) == warning_text(k, b, addr),
        a.limits.copy_inactivity_secs == b.limits.copy_inactivity_secs,
        a.limits.max_request_bytes == b.limits.max_request_bytes,
    ensures
        warning_lines(f, a, addr) == warning_lines(f, b, addr),
    decreases f.len(),
{
    if f.len() > 0 {
        lemma_lines_same(f.drop_last(), a, b, addr);
    }
}

/// `part` appears somewhere in `whole`.
pub open spec fn occurs_in(part: Seq<char>, whole: Seq<char>) -> bool {
    exists|i: int| 0 <= i && i + part.len() <= whole.len() && #[trigger] whole.subrange(i, i + part.len()) == part
}

proof fn lemma_occurs_extend(m: Seq<char>, w: Seq<char>, t: Seq<char>)
    requires
        occurs_in(m, w),
    ensures
        occurs_in(m, w + t),
{
    let i = choose|i: int| 0 <= i && i + m.len() <= w.len() && #[trigger] w.subrange(i, i + m.len()) == m;
    assert((w + t).subrange(i, i + m.len()) =~= w.subrange(i, i + m.len()));
}

proof fn lemma_occurs_suffix(x: Seq<char>, m: Seq<char>)
    ensures
        occurs_in(m, x + m),
{
    assert((x + m).subrange(x.len() as int, (x.len() + m.len()) as int) =~= m);
}

/// Law: the report shows every setting it summarises with the value
/// configured: the port, the bind address, the data directory, whether
/// S3 is configured, the documentation flag, the token (masked), the
/// trusted-network and admin flags, and the two limits, each on a line
/// of its own.
pub proof fn report_lists_the_settings(cfg: AppConfig, addr: BindAddr)
    ensures
        occurs_in("  port                        "@ + decimal(cfg.port as nat) + "\n"@, report_text(cfg, addr)),
        occurs_in("  bind (expected)             "@ + bind_addr_text(addr) + "\n"@, report_text(cfg, addr)),
        occurs_in("  fs.data_directory           "@ + cfg.fs.data_directory@ + "\n"@, report_text(cfg, addr)),
        occurs_in("  s3 backend                  "@ + (if cfg.s3 is Some { "configured"@ } else { "disabled"@ }) + "\n"@, report_text(cfg, addr)),
        occurs_in("  documentation_enabled       "@ + (if cfg.documentation_enabled { "true"@ } else { "false"@ }) + "\n"@, report_text(cfg, addr)),
        occurs_in("  security.inter_service_tok  "@ + (if cfg.security.inter_service_token is Some { "SET (masked)"@ } else { "unset"@ }) + "\n"@, report_text(cfg, addr)),
        occurs_in("  security.trust_network      "@ + (if cfg.security.trust_network { "true"@ } else { "false"@ }) + "\n"@, report_text(cfg, addr)),
        occurs_in("  security.admin_enabled      "@ + (if cfg.security.admin_enabled { "true"@ } else { "false"@ }) + " (FILEFERRY_ADMIN_ENABLED)\n"@, report_text(cfg, addr)),
        occurs_in("  limits.copy_inactivity_secs "@ + decimal(cfg.limits.copy_inactivity_secs as nat) + "\n"@, report_text(cfg, addr)),
        occurs_in("  limits.max_request_bytes    "@ + decimal(cfg.limits.max_request_bytes as nat) + "\n"@, report_text(cfg, addr)),
{
    let summary = summary_text(cfg, addr);
    let tail = report_text(cfg, addr).skip(summary.len() as int);
    assert(report_text(cfg, addr) =~= summary + tail);
    assert(port_line(cfg) == "  port                        "@ + decimal(cfg.port as nat) + "\n"@);
    lemma_occurs_suffix(header_lines(), port_line(cfg));
    lemma_occurs_extend(port_line(cfg), header_lines() + port_line(cfg), bind_line(addr));
    lemma_occurs_extend(port_line(cfg), header_lines() + port_line(cfg) + bind_line(addr), directory_line(cfg));
    lemma_occurs_extend(port_line(cfg), header_lines() + port_line(cfg) + bind_line(addr) + directory_line(cfg), s3_line(cfg));
    lemma_occurs_extend(port_line(cfg), header_lines() + port_line(cfg) + bind_line(addr) + directory_line(cfg) + s3_line(cfg), documentation_line(cfg));
    lemma_occurs_extend(port_line(cfg), header_lines() + port_line(cfg) + bind_line(addr) + directory_line(cfg) + s3_line(cfg) + documentation_line(cfg), token_line(cfg));
    lemma_occurs_extend(port_line(cfg), header_lines() + port_line(cfg) + bind_line(addr) + directory_line(cfg) + s3_line(cfg) + documentation_line(cfg) + token_line(cfg), trust_line(cfg));
    lemma_occurs_extend(port_line(cfg), header_lines() + port_line(cfg) + bind_line(addr) + directory_line(cfg) + s3_line(cfg) + documentation_line(cfg) + token_line(cfg) + trust_line(cfg), admin_line(cfg));
    lemma_occurs_extend(port_line(cfg), header_lines() + port_line(cfg) + bind_line(addr) + directory_line(cfg) + s3_line(cfg) + documentation_line(cfg) + token_line(cfg) + trust_line(cfg) + admin_line(cfg), inactivity_line(cfg));
    lemma_occurs_extend(port_line(cfg), header_lines() + port_line(cfg) + bind_line(addr) + directory_line(cfg) + s3_line(cfg) + documentation_line(cfg) + token_line(cfg) + trust_line(cfg) + admin_line(cfg) + inactivity_line(cfg), request_line(cfg));
    lemma_occurs_extend(port_line(cfg), header_lines() + port_line(cfg) + bind_line(addr) + directory_line(cfg) + s3_line(cfg) + documentation_line(cfg) + token_line(cfg) + trust_line(cfg) + admin_line(cfg) + inactivity_line(cfg) + request_line(cfg), "\n"@);
    lemma_occurs_extend(port_line(cfg), summary, tail);
    assert(bind_line(addr) == "  bind (expected)             "@ + bind_addr_text(addr) + "\n"@);
    lemma_occurs_suffix(header_lines() + port_line(cfg), bind_line(addr));
    lemma_occurs_extend(bind_line(addr), header_lines() + port_line(cfg) + bind_line(addr), directory_line(cfg));
    lemma_occurs_extend(bind_line(addr), header_lines() + port_line(cfg) + bind_line(addr) + directory_line(cfg), s3_line(cfg));
    lemma_occurs_extend(bind_line(addr), header_lines() + port_line(cfg) + bind_line(addr) + directory_line(cfg) + s3_line(cfg), documentation_line(cfg));
    lemma_occurs_extend(bind_line(addr), header_lines() + port_line(cfg) + bind_line(addr) + directory_line(cfg) + s3_line(cfg) + documentation_line(cfg), token_line(cfg));
    lemma_occurs_extend(bind_line(addr), header_lines() + port_line(cfg) + bind_line(addr) + directory_line(cfg) + s3_line(cfg) + documentation_line(cfg) + token_line(cfg), trust_line(cfg));
    lemma_occurs_extend(bind_line(addr), header_lines() + port_line(cfg) + bind_line(addr) + directory_line(cfg) + s3_line(cfg) + documentation_line(cfg) + token_line(cfg) + trust_line(cfg), admin_line(cfg));
    lemma_occurs_extend(bind_line(addr), header_lines() + port_line(cfg) + bind_line(addr) + directory_line(cfg) + s3_line(cfg) + documentation_line(cfg) + token_line(cfg) + trust_line(cfg) + admin_line(cfg), inactivity_line(cfg));
    lemma_occurs_extend(bind_line(addr), header_lines() + port_line(cfg) + bind_line(addr) + directory_line(cfg) + s3_line(cfg) + documentation_line(cfg) + token_line(cfg) + trust_line(cfg) + admin_line(cfg) + inactivity_line(cfg), request_line(cfg));
    lemma_occurs_extend(bind_line(addr), header_lines() + port_line(cfg) + bind_line(addr) + directory_line(cfg) + s3_line(cfg) + documentation_line(cfg) + token_line(cfg) + trust_line(cfg) + admin_line(cfg) + inactivity_line(cfg) + request_line(cfg), "\n"@);
    lemma_occurs_extend(bind_line(addr), summary, tail);
    assert(directory_line(cfg) == "  fs.data_directory           "@ + cfg.fs.data_directory@ + "\n"@);
    lemma_occurs_suffix(header_lines() + port_line(cfg) + bind_line(addr), directory_line(cfg));
    lemma_occurs_extend(directory_line(cfg), header_lines() + port_line(cfg) + bind_line(addr) + directory_line(cfg), s3_line(cfg));
    lemma_occurs_extend(directory_line(cfg), header_lines() + port_line(cfg) + bind_line(addr) + directory_line(cfg) + s3_line(cfg), documentation_line(cfg));
    lemma_occurs_extend(directory_line(cfg), header_lines() + port_line(cfg) + bind_line(addr) + directory_line(cfg) + s3_line(cfg) + documentation_line(cfg), token_line(cfg));
    lemma_occurs_extend(directory_line(cfg), header_lines() + port_line(cfg) + bind_line(addr) + directory_line(cfg) + s3_line(cfg) + documentation_line(cfg) + token_line(cfg), trust_line(cfg));
    lemma_occurs_extend(directory_line(cfg), header_lines() + port_line(cfg) + bind_line(addr) + directory_line(cfg) + s3_line(cfg) + documentation_line(cfg) + token_line(cfg) + trust_line(cfg), admin_line(cfg));
    lemma_occurs_extend(directory_line(cfg), header_lines() + port_line(cfg) + bind_line(addr) + directory_line(cfg) + s3_line(cfg) + documentation_line(cfg) + token_line(cfg) + trust_line(cfg) + admin_line(cfg), inactivity_line(cfg));
    lemma_occurs_extend(directory_line(cfg), header_lines() + port_line(cfg) + bind_line(addr) + directory_line(cfg) + s3_line(cfg) + documentation_line(cfg) + token_line(cfg) + trust_line(cfg) + admin_line(cfg) + inactivity_line(cfg), request_line(cfg));
    lemma_occurs_extend(directory_line(cfg), header_lines() + port_line(cfg) + bind_line(addr) + directory_line(cfg) + s3_line(cfg) + documentation_line(cfg) + token_line(cfg) + trust_line(cfg) + admin_line(cfg) + inactivity_line(cfg) + request_line(cfg), "\n"@);
    lemma_occurs_extend(directory_line(cfg), summary, tail);
    assert(s3_line(cfg) == "  s3 backend                  "@ + (if cfg.s3 is Some { "configured"@ } else { "disabled"@ }) + "\n"@);
    lemma_occurs_suffix(header_lines() + port_line(cfg) + bind_line(addr) + directory_line(cfg), s3_line(cfg));
    lemma_occurs_extend(s3_line(cfg), header_lines() + port_line(cfg) + bind_line(addr) + directory_line(cfg) + s3_line(cfg), documentation_line(cfg));
    lemma_occurs_extend(s3_line(cfg), header_lines() + port_line(cfg) + bind_line(addr) + directory_line(cfg) + s3_line(cfg) + documentation_line(cfg), token_line(cfg));
    lemma_occurs_extend(s3_line(cfg), header_lines() + port_line(cfg) + bind_line(addr) + directory_line(cfg) + s3_line(cfg) + documentation_line(cfg) + token_line(cfg), trust_line(cfg));
    lemma_occurs_extend(s3_line(cfg), header_lines() + port_line(cfg) + bind_line(addr) + directory_line(cfg) + s3_line(cfg) + documentation_line(cfg) + token_line(cfg) + trust_line(cfg), admin_line(cfg));
    lemma_occurs_extend(s3_line(cfg), header_lines() + port_line(cfg) + bind_line(addr) + directory_line(cfg) + s3_line(cfg) + documentation_line(cfg) + token_line(cfg) + trust_line(cfg) + admin_line(cfg), inactivity_line(cfg));
    lemma_occurs_extend(s3_line(cfg), header_lines() + port_line(cfg) + bind_line(addr) + directory_line(cfg) + s3_line(cfg) + documentation_line(cfg) + token_line(cfg) + trust_line(cfg) + admin_line(cfg) + inactivity_line(cfg), request_line(cfg));
    lemma_occurs_extend(s3_line(cfg), header_lines() + port_line(cfg) + bind_line(addr) + directory_line(cfg) + s3_line(cfg) + documentation_line(cfg) + token_line(cfg) + trust_line(cfg) + admin_line(cfg) + inactivity_line(cfg) + request_line(cfg), "\n"@);
    lemma_occurs_extend(s3_line(cfg), summary, tail);
    assert(documentation_line(cfg) == "  documentation_enabled       "@ + (if cfg.documentation_enabled { "true"@ } else { "false"@ }) + "\n"@);
    lemma_occurs_suffix(header_lines() + port_line(cfg) + bind_line(addr) + directory_line(cfg) + s3_line(cfg), documentation_line(cfg));
    lemma_occurs_extend(documentation_line(cfg), header_lines() + port_line(cfg) + bind_line(addr) + directory_line(cfg) + s3_line(cfg) + documentation_line(cfg), token_line(cfg));
    lemma_occurs_extend(documentation_line(cfg), header_lines() + port_line(cfg) + bind_line(addr) + directory_line(cfg) + s3_line(cfg) + documentation_line(cfg) + token_line(cfg), trust_line(cfg));
    lemma_occurs_extend(documentation_line(cfg), header_lines() + port_line(cfg) + bind_line(addr) + directory_line(cfg) + s3_line(cfg) + documentation_line(cfg) + token_line(cfg) + trust_line(cfg), admin_line(cfg));
    lemma_occurs_extend(documentation_line(cfg), header_lines() + port_line(cfg) + bind_line(addr) + directory_line(cfg) + s3_line(cfg) + documentation_line(cfg) + token_line(cfg) + trust_line(cfg) + admin_line(cfg), inactivity_line(cfg));
    lemma_occurs_extend(documentation_line(cfg), header_lines() + port_line(cfg) + bind_line(addr) + directory_line(cfg) + s3_line(cfg) + documentation_line(cfg) + token_line(cfg) + trust_line(cfg) + admin_line(cfg) + inactivity_line(cfg), request_line(cfg));
    lemma_occurs_extend(documentation_line(cfg), header_lines() + port_line(cfg) + bind_line(addr) + directory_line(cfg) + s3_line(cfg) + documentation_line(cfg) + token_line(cfg) + trust_line(cfg) + admin_line(cfg) + inactivity_line(cfg) + request_line(cfg), "\n"@);
    lemma_occurs_extend(documentation_line(cfg), summary, tail);
    assert(token_line(cfg) == "  security.inter_service_tok  "@ + (if cfg.security.inter_service_token is Some { "SET (masked)"@ } else { "unset"@ }) + "\n"@);
    lemma_occurs_suffix(header_lines() + port_line(cfg) + bind_line(addr) + directory_line(cfg) + s3_line(cfg) + documentation_line(cfg), token_line(cfg));
    lemma_occurs_extend(token_line(cfg), header_lines() + port_line(cfg) + bind_line(addr) + directory_line(cfg) + s3_line(cfg) + documentation_line(cfg) + token_line(cfg), trust_line(cfg));
    lemma_occurs_extend(token_line(cfg), header_lines() + port_line(cfg) + bind_line(addr) + directory_line(cfg) + s3_line(cfg) + documentation_line(cfg) + token_line(cfg) + trust_line(cfg), admin_line(cfg));
    lemma_occurs_extend(token_line(cfg), header_lines() + port_line(cfg) + bind_line(addr) + directory_line(cfg) + s3_line(cfg) + documentation_line(cfg) + token_line(cfg) + trust_line(cfg) + admin_line(cfg), inactivity_line(cfg));
    lemma_occurs_extend(token_line(cfg), header_lines() + port_line(cfg) + bind_line(addr) + directory_line(cfg) + s3_line(cfg) + documentation_line(cfg) + token_line(cfg) + trust_line(cfg) + admin_line(cfg) + inactivity_line(cfg), request_line(cfg));
    lemma_occurs_extend(token_line(cfg), header_lines() + port_line(cfg) + bind_line(addr) + directory_line(cfg) + s3_line(cfg) + documentation_line(cfg) + token_line(cfg) + trust_line(cfg) + admin_line(cfg) + inactivity_line(cfg) + request_line(cfg), "\n"@);
    lemma_occurs_extend(token_line(cfg), summary, tail);
    assert(trust_line(cfg) == "  security.trust_network      "@ + (if cfg.security.trust_network { "true"@ } else { "false"@ }) + "\n"@);
    lemma_occurs_suffix(header_lines() + port_line(cfg) + bind_line(addr) + directory_line(cfg) + s3_line(cfg) + documentation_line(cfg) + token_line(cfg), trust_line(cfg));
    lemma_occurs_extend(trust_line(cfg), header_lines() + port_line(cfg) + bind_line(addr) + directory_line(cfg) + s3_line(cfg) + documentation_line(cfg) + token_line(cfg) + trust_line(cfg), admin_line(cfg));
    lemma_occurs_extend(trust_line(cfg), header_lines() + port_line(cfg) + bind_line(addr) + directory_line(cfg) + s3_line(cfg) + documentation_line(cfg) + token_line(cfg) + trust_line(cfg) + admin_line(cfg), inactivity_line(cfg));
    lemma_occurs_extend(trust_line(cfg), header_lines() + port_line(cfg) + bind_line(addr) + directory_line(cfg) + s3_line(cfg) + documentation_line(cfg) + token_line(cfg) + trust_line(cfg) + admin_line(cfg) + inactivity_line(cfg), request_line(cfg));
    lemma_occurs_extend(trust_line(cfg), header_lines() + port_line(cfg) + bind_line(addr) + directory_line(cfg) + s3_line(cfg) + documentation_line(cfg) + token_line(cfg) + trust_line(cfg) + admin_line(cfg) + inactivity_line(cfg) + request_line(cfg), "\n"@);
    lemma_occurs_extend(trust_line(cfg), summary, tail);
    assert(admin_line(cfg) == "  security.admin_enabled      "@ + (if cfg.security.admin_enabled { "true"@ } else { "false"@ }) + " (FILEFERRY_ADMIN_ENABLED)\n"@);
    lemma_occurs_suffix(header_lines() + port_line(cfg) + bind_line(addr) + directory_line(cfg) + s3_line(cfg) + documentation_line(cfg) + token_line(cfg) + trust_line(cfg), admin_line(cfg));
    lemma_occurs_extend(admin_line(cfg), header_lines() + port_line(cfg) + bind_line(addr) + directory_line(cfg) + s3_line(cfg) + documentation_line(cfg) + token_line(cfg) + trust_line(cfg) + admin_line(cfg), inactivity_line(cfg));
    lemma_occurs_extend(admin_line(cfg), header_lines() + port_line(cfg) + bind_line(addr) + directory_line(cfg) + s3_line(cfg) + documentation_line(cfg) + token_line(cfg) + trust_line(cfg) + admin_line(cfg) + inactivity_line(cfg), request_line(cfg));
    lemma_occurs_extend(admin_line(cfg), header_lines() + port_line(cfg) + bind_line(addr) + directory_line(cfg) + s3_line(cfg) + documentation_line(cfg) + token_line(cfg) + trust_line(cfg) + admin_line(cfg) + inactivity_line(cfg) + request_line(cfg), "\n"@);
    lemma_occurs_extend(admin_line(cfg), summary, tail);
    assert(inactivity_line(cfg) == "  limits.copy_inactivity_secs "@ + decimal(cfg.limits.copy_inactivity_secs as nat) + "\n"@);
    lemma_occurs_suffix(header_lines() + port_line(cfg) + bind_line(addr) + directory_line(cfg) + s3_line(cfg) + documentation_line(cfg) + token_line(cfg) + trust_line(cfg) + admin_line(cfg), inactivity_line(cfg));
    lemma_occurs_extend(inactivity_line(cfg), header_lines() + port_line(cfg) + bind_line(addr) + directory_line(cfg) + s3_line(cfg) + documentation_line(cfg) + token_line(cfg) + trust_line(cfg) + admin_line(cfg) + inactivity_line(cfg), request_line(cfg));
    lemma_occurs_extend(inactivity_line(cfg), header_lines() + port_line(cfg) + bind_line(addr) + directory_line(cfg) + s3_line(cfg) + documentation_line(cfg) + token_line(cfg) + trust_line(cfg) + admin_line(cfg) + inactivity_line(cfg) + request_line(cfg), "\n"@);
    lemma_occurs_extend(inactivity_line(cfg), summary, tail);
    assert(request_line(cfg) == "  limits.max_request_bytes    "@ + decimal(cfg.limits.max_request_bytes as nat) + "\n"@);
    lemma_occurs_suffix(header_lines() + port_line(cfg) + bind_line(addr) + directory_line(cfg) + s3_line(cfg) + documentation_line(cfg) + token_line(cfg) + trust_line(cfg) + admin_line(cfg) + inactivity_line(cfg), request_line(cfg));
    lemma_occurs_extend(request_line(cfg), header_lines() + port_line(cfg) + bind_line(addr) + directory_line(cfg) + s3_line(cfg) + documentation_line(cfg) + token_line(cfg) + trust_line(cfg) + admin_line(cfg) + inactivity_line(cfg) + request_line(cfg), "\n"@);
    lemma_occurs_extend(request_line(cfg), summary, tail);
}

} // verus!
