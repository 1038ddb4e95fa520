use fileferry::config::{
    from_yaml, resolve_config_path, AppConfig, AppConfigYaml, ConfigError, EnvVars, LimitsConfigYaml,
    S3ConfigYaml, SecurityConfigYaml, FsConfigYaml, DEFAULT_CONFIG_PATH,
};

fn refused(r: Result<AppConfig, ConfigError>) -> ConfigError {
    match r {
        Err(e) => e,
        Ok(_) => panic!("expected the configuration to be refused"),
    }
}

fn env(pairs: &[(&str, &str)]) -> EnvVars {
    EnvVars { vars: pairs.iter().map(|(k, v)| (k.to_string(), v.to_string())).collect() }
}

#[test]
fn defaults_when_no_file() {
    // An explicit path is always the one read, even when no file exists
    // there: it never falls back to the built-in defaults, so reading
    // the missing file is a hard error.
    let path = resolve_config_path(Some("/nonexistent/fileferry.yaml"), &env(&[]), false);
    assert!(path.is_some(), "explicit path that doesn't exist is a hard error");
    assert_eq!(path.as_deref(), Some("/nonexistent/fileferry.yaml"));
}

#[test]
fn config_search_order() {
    let e = env(&[("FILEFERRY_CONFIG", "/etc/ff.yaml")]);
    assert_eq!(resolve_config_path(Some("cli.yaml"), &e, true).as_deref(), Some("cli.yaml"));
    assert_eq!(resolve_config_path(None, &e, true).as_deref(), Some("/etc/ff.yaml"));
    let empty = env(&[("FILEFERRY_CONFIG", "")]);
    assert_eq!(resolve_config_path(None, &empty, true).as_deref(), Some(DEFAULT_CONFIG_PATH));
    assert_eq!(resolve_config_path(None, &empty, false), None);
    assert_eq!(resolve_config_path(None, &env(&[]), false), None);
}

#[test]
fn parses_minimal_yaml() {
    let y = AppConfigYaml { port: Some(9000), ..AppConfigYaml::default() };
    let cfg = from_yaml(y, &env(&[])).unwrap();
    assert_eq!(cfg.port, 9000);
    assert!(cfg.s3.is_none());
}

fn s3_block(access: &str, secret: &str) -> S3ConfigYaml {
    S3ConfigYaml {
        region: "us-east-1".into(),
        endpoint_url: String::new(),
        bucket: "b".into(),
        bucket_path: String::new(),
        access_key_id_env: access.into(),
        secret_access_key_env: secret.into(),
    }
}

#[test]
fn s3_block_fails_without_env() {
    let y = AppConfigYaml {
        s3: Some(s3_block("FILEFERRY_TEST_MISSING_ACCESS", "FILEFERRY_TEST_MISSING_SECRET")),
        ..AppConfigYaml::default()
    };
    let err = refused(from_yaml(y, &env(&[]))).message();
    assert!(err.contains("FILEFERRY_TEST_MISSING_ACCESS"), "{err}");
}

#[test]
fn s3_block_resolves_credentials_from_env() {
    let y = AppConfigYaml { s3: Some(s3_block("AK", "SK")), ..AppConfigYaml::default() };
    let cfg = from_yaml(y, &env(&[("AK", "id-1"), ("SK", "secret-1")])).unwrap();
    let s3 = cfg.s3.unwrap();
    assert_eq!(s3.access_key_id, "id-1");
    assert_eq!(s3.secret_access_key, "secret-1");
    assert_eq!(s3.bucket, "b");
    assert_eq!(s3.region, "us-east-1");
}

#[test]
fn empty_env_value_is_refused() {
    let y = AppConfigYaml { s3: Some(s3_block("AK", "SK")), ..AppConfigYaml::default() };
    let err = refused(from_yaml(y, &env(&[("AK", ""), ("SK", "x")])));
    assert!(matches!(err, ConfigError::EnvEmpty(ref n) if n == "AK"));
    assert_eq!(err.message(), "env var AK referenced by config but is empty");
}

#[test]
fn cors_origin_is_a_hard_failure() {
    let y = AppConfigYaml { cors_origin: Some("https://example.com".into()), ..AppConfigYaml::default() };
    let err = refused(from_yaml(y, &env(&[])));
    assert!(matches!(err, ConfigError::CorsOriginSet));
    assert_eq!(err.message(), "config.cors_origin is set but CORS is not implemented");
    let y = AppConfigYaml { cors_origin: Some(String::new()), ..AppConfigYaml::default() };
    assert!(from_yaml(y, &env(&[])).is_ok());
}

#[test]
fn bucket_path_traversal_and_absolute_are_refused() {
    let mut s = s3_block("AK", "SK");
    s.bucket_path = "a/../b".into();
    let y = AppConfigYaml { s3: Some(s), ..AppConfigYaml::default() };
    let vars = env(&[("AK", "x"), ("SK", "y")]);
    assert!(matches!(refused(from_yaml(y, &vars)), ConfigError::BucketPathTraversal));
    let mut s = s3_block("AK", "SK");
    s.bucket_path = "/prefix".into();
    let y = AppConfigYaml { s3: Some(s), ..AppConfigYaml::default() };
    assert!(matches!(refused(from_yaml(y, &vars)), ConfigError::BucketPathAbsolute));
}

#[test]
fn security_token_env_must_resolve() {
    let sec = SecurityConfigYaml { inter_service_token_env: Some("TOK".into()), trust_network: Some(true) };
    let y = AppConfigYaml { security: Some(sec), ..AppConfigYaml::default() };
    assert!(matches!(refused(from_yaml(y, &env(&[]))), ConfigError::EnvUnset(ref n) if n == "TOK"));
    let sec = SecurityConfigYaml { inter_service_token_env: Some("TOK".into()), trust_network: Some(true) };
    let y = AppConfigYaml { security: Some(sec), ..AppConfigYaml::default() };
    let cfg = from_yaml(y, &env(&[("TOK", "bearer-1")])).unwrap();
    assert_eq!(cfg.security.inter_service_token.as_deref(), Some("bearer-1"));
    assert!(cfg.security.trust_network);
}

#[test]
fn omitted_keys_take_their_defaults() {
    let cfg = from_yaml(AppConfigYaml::default(), &env(&[])).unwrap();
    let d = AppConfig::default();
    assert_eq!(cfg.port, d.port);
    assert_eq!(cfg.port, 8080);
    assert!(cfg.documentation_enabled);
    assert_eq!(cfg.fs.data_directory, "./data");
    assert_eq!(cfg.limits.max_request_bytes, 33_554_432);
    assert_eq!(cfg.limits.max_response_bytes, 5_368_709_120);
    assert_eq!(cfg.limits.request_timeout_secs, 300);
    assert_eq!(cfg.limits.copy_inactivity_secs, 30);
    assert!(!cfg.security.admin_enabled);
    let y = AppConfigYaml {
        fs: Some(FsConfigYaml { data_directory: Some("/srv".into()) }),
        limits: Some(LimitsConfigYaml { copy_inactivity_secs: Some(5), ..LimitsConfigYaml::default() }),
        ..AppConfigYaml::default()
    };
    let cfg = from_yaml(y, &env(&[])).unwrap();
    assert_eq!(cfg.fs.data_directory, "/srv");
    assert_eq!(cfg.limits.copy_inactivity_secs, 5);
    assert_eq!(cfg.limits.request_timeout_secs, 300);
}

#[test]
fn admin_flag_comes_from_the_environment() {
    for val in ["1", "true", "TRUE", " yes "] {
        let cfg = from_yaml(AppConfigYaml::default(), &env(&[("FILEFERRY_ADMIN_ENABLED", val)])).unwrap();
        assert!(cfg.security.admin_enabled, "{val:?} should enable");
    }
    for val in ["0", "no", ""] {
        let cfg = from_yaml(AppConfigYaml::default(), &env(&[("FILEFERRY_ADMIN_ENABLED", val)])).unwrap();
        assert!(!cfg.security.admin_enabled, "{val:?} should not enable");
    }
}
