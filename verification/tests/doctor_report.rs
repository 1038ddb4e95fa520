use fileferry::config::{AppConfig, SecurityConfig};
use fileferry::doctor::{exit_code, write_report};
use fileferry::net::BindAddr;

fn wildcard() -> BindAddr {
    BindAddr::wildcard(8080)
}

fn loopback() -> BindAddr {
    BindAddr { a: 127, b: 0, c: 0, d: 1, port: 8080 }
}

#[test]
fn clean_config_on_loopback_reports_zero_warnings() {
    let (text, n) = write_report(&AppConfig::default(), &loopback());
    assert_eq!(n, 0);
    assert!(text.contains("Preflight checks: OK"), "{text}");
    assert!(text.contains("Exit code: 0"), "{text}");
}

#[test]
fn wildcard_default_config_reports_expected_warnings() {
    let (text, n) = write_report(&AppConfig::default(), &wildcard());
    assert_eq!(n, 2);
    assert!(text.contains("W-1"), "output missing W-1: {text}");
    assert!(text.contains("W-4"), "output missing W-4: {text}");
    assert!(text.contains("Preflight checks: 2 warning"), "{text}");
    assert!(text.contains("Exit code: 1"), "{text}");
}

#[test]
fn secrets_are_masked_in_report() {
    let sensitive = "SUPERSECRET-TOKEN-DEADBEEF-CAFEBABE";
    let cfg = AppConfig {
        security: SecurityConfig {
            inter_service_token: Some(sensitive.to_string()),
            trust_network: false,
            admin_enabled: false,
        },
        ..AppConfig::default()
    };
    let (text, _) = write_report(&cfg, &loopback());
    assert!(!text.contains(sensitive), "doctor leaked the bearer token in its report: {text}");
    assert!(text.contains("SET (masked)"), "{text}");
}

#[test]
fn report_ends_with_exit_code_line() {
    let (text, _) = write_report(&AppConfig::default(), &loopback());
    let last_nonempty = text.lines().rev().find(|l| !l.trim().is_empty()).unwrap_or("");
    assert!(last_nonempty.starts_with("Exit code:"), "last non-empty line was {last_nonempty:?}");
}

#[test]
fn report_header_and_summary_lines() {
    let (text, _) = write_report(&AppConfig::default(), &loopback());
    let lines: Vec<&str> = text.lines().collect();
    assert_eq!(lines[0], "fileferry doctor 0.2.2-alpha");
    assert_eq!(lines[1], "==================================================");
    assert!(text.contains("  port                        8080\n"));
    assert!(text.contains("  bind (expected)             127.0.0.1:8080\n"));
    assert!(text.contains("  fs.data_directory           ./data\n"));
    assert!(text.contains("  s3 backend                  disabled\n"));
    assert!(text.contains("  security.inter_service_tok  unset\n"));
    assert!(text.contains("  security.admin_enabled      false (FILEFERRY_ADMIN_ENABLED)\n"));
    assert!(text.ends_with("Exit code: 0 (0 warning(s))\n"));
}

#[test]
fn doctor_exit_codes() {
    assert_eq!(exit_code(Some(0)), 0);
    assert_eq!(exit_code(Some(3)), 1);
    assert_eq!(exit_code(None), 2);
}
