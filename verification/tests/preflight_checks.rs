use fileferry::boot_warnings::{
    preflight, BootWarning, COPY_INACTIVITY_WARN_CEILING_SECS, MAX_REQUEST_BYTES_WARN_CEILING,
};
use fileferry::config::{AppConfig, LimitsConfig, SecurityConfig};
use fileferry::net::BindAddr;

fn loopback() -> BindAddr {
    BindAddr { a: 127, b: 0, c: 0, d: 1, port: 8080 }
}

fn wildcard() -> BindAddr {
    BindAddr::wildcard(8080)
}

fn ids(ws: &[BootWarning]) -> Vec<&'static str> {
    ws.iter().map(|w| w.id).collect()
}

#[test]
fn default_loopback_is_silent() {
    let cfg = AppConfig::default();
    assert!(preflight(&cfg, &loopback()).is_empty());
}

#[test]
fn wildcard_bind_without_auth_fires_w1_and_w4() {
    let cfg = AppConfig::default();
    assert_eq!(ids(&preflight(&cfg, &wildcard())), vec!["W-1", "W-4"]);
}

#[test]
fn wildcard_with_token_only_fires_w4() {
    let cfg = AppConfig {
        security: SecurityConfig {
            inter_service_token: Some("bearer".into()),
            trust_network: false,
            admin_enabled: false,
        },
        ..AppConfig::default()
    };
    assert_eq!(ids(&preflight(&cfg, &wildcard())), vec!["W-4"]);
}

#[test]
fn trust_network_without_token_fires_w2() {
    let cfg = AppConfig {
        security: SecurityConfig { inter_service_token: None, trust_network: true, admin_enabled: false },
        ..AppConfig::default()
    };
    assert_eq!(ids(&preflight(&cfg, &wildcard())), vec!["W-2", "W-4"]);
}

#[test]
fn admin_enabled_on_wildcard_fires_w3() {
    let cfg = AppConfig {
        security: SecurityConfig { inter_service_token: None, trust_network: false, admin_enabled: true },
        ..AppConfig::default()
    };
    assert_eq!(ids(&preflight(&cfg, &wildcard())), vec!["W-1", "W-3"]);
}

#[test]
fn copy_inactivity_above_ceiling_fires_w5() {
    let cfg = AppConfig {
        limits: LimitsConfig {
            copy_inactivity_secs: COPY_INACTIVITY_WARN_CEILING_SECS + 1,
            ..LimitsConfig::default()
        },
        ..AppConfig::default()
    };
    let ids = ids(&preflight(&cfg, &loopback()));
    assert!(ids.contains(&"W-5"), "got {ids:?}");
}

#[test]
fn copy_inactivity_at_ceiling_is_silent() {
    let cfg = AppConfig {
        limits: LimitsConfig { copy_inactivity_secs: COPY_INACTIVITY_WARN_CEILING_SECS, ..LimitsConfig::default() },
        ..AppConfig::default()
    };
    assert!(preflight(&cfg, &loopback()).is_empty());
}

#[test]
fn max_request_bytes_above_ceiling_fires_w6() {
    let cfg = AppConfig {
        limits: LimitsConfig { max_request_bytes: MAX_REQUEST_BYTES_WARN_CEILING + 1, ..LimitsConfig::default() },
        ..AppConfig::default()
    };
    let ids = ids(&preflight(&cfg, &loopback()));
    assert!(ids.contains(&"W-6"), "got {ids:?}");
}

#[test]
fn every_warning_id_is_unique() {
    let stressed = AppConfig {
        documentation_enabled: true,
        security: SecurityConfig { inter_service_token: None, trust_network: true, admin_enabled: true },
        limits: LimitsConfig {
            max_request_bytes: MAX_REQUEST_BYTES_WARN_CEILING + 1,
            max_response_bytes: 5_368_709_120,
            request_timeout_secs: 300,
            copy_inactivity_secs: COPY_INACTIVITY_WARN_CEILING_SECS + 1,
        },
        ..AppConfig::default()
    };
    let ws = preflight(&stressed, &wildcard());
    let ids: Vec<&'static str> = ws.iter().map(|w| w.id).collect();
    let mut sorted = ids.clone();
    sorted.sort();
    sorted.dedup();
    assert_eq!(ids.len(), sorted.len(), "duplicate id in {ids:?}");
}

#[test]
fn warning_texts_name_the_bind_and_the_values() {
    let cfg = AppConfig {
        limits: LimitsConfig {
            copy_inactivity_secs: 301,
            max_request_bytes: 104_857_601,
            ..LimitsConfig::default()
        },
        ..AppConfig::default()
    };
    let ws = preflight(&cfg, &wildcard());
    assert_eq!(ids(&ws), vec!["W-1", "W-4", "W-5", "W-6"]);
    assert!(ws[0].message.starts_with("[W-1] security.inter_service_token_env is unset AND bind 0.0.0.0:8080 is non-loopback"));
    assert!(ws[2].message.starts_with("[W-5] limits.copy_inactivity_secs = 301s exceeds the recommended 300s ceiling."));
    assert!(ws[2].message.ends_with("that needs >300s between successful reads."));
    assert!(ws[3].message.starts_with("[W-6] limits.max_request_bytes = 104857601 bytes exceeds the recommended 104857600 (100 MiB) ceiling."));
}
