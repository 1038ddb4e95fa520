use fileferry::config::AppConfig;
use fileferry::diagnose::{diagnose, unwired_fields};

#[test]
fn diagnose_default_config_emits_nothing() {
    assert!(diagnose(&AppConfig::default()).is_empty());
}

#[test]
fn diagnose_empty_unwired_table_is_a_noop() {
    let cfg = AppConfig { cors_origin: "https://example.com".into(), ..AppConfig::default() };
    assert!(diagnose(&cfg).is_empty());
    assert!(unwired_fields().is_empty());
}
