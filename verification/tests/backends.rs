use fileferry::backend::offline::{offline_from_env, s3_backend_choice, OfflineBackend, S3Choice};
use fileferry::backend::s3::{timestamp_text, S3Backend, S3Object, S3Timestamp};
use fileferry::backend::{Backends, LimitedReader, ListOptions};
use fileferry::config::{AppConfig, EnvVars, S3Config};
use fileferry::error::FerryError;
use fileferry::model::StorageType;

fn env(pairs: &[(&str, &str)]) -> EnvVars {
    EnvVars { vars: pairs.iter().map(|(k, v)| (k.to_string(), v.to_string())).collect() }
}

#[test]
fn limited_reader_allows_up_to_cap() {
    let mut r = LimitedReader::new((), 100);
    assert!(r.admit_read().is_ok());
    assert!(r.record_read(100).is_ok());
    assert_eq!(r.total(), 100);
    // A count equal to the cap still lets the end-of-stream read through.
    assert!(r.admit_read().is_ok());
    assert!(r.record_read(0).is_ok());
    assert_eq!(r.max(), 100);
}

#[test]
fn limited_reader_errors_over_cap() {
    let mut r = LimitedReader::new((), 50);
    let err = r.record_read(100).unwrap_err();
    assert!(matches!(err, FerryError::TransferTooLarge { cap: 50 }));
    assert!(err.message().contains("50 bytes"), "{}", err.message());
    // Sticky: every later read is refused before it starts.
    assert!(r.admit_read().is_err());
}

#[test]
fn limited_reader_cap_of_zero_rejects_any_byte() {
    let mut r = LimitedReader::new((), 0);
    assert!(r.admit_read().is_ok());
    assert!(r.record_read(1).is_err());
}

#[test]
fn limited_reader_counts_across_reads() {
    let mut r = LimitedReader::new(vec![1u8, 2, 3], 10);
    assert!(r.record_read(4).is_ok());
    assert!(r.record_read(6).is_ok());
    assert_eq!(r.total(), 10);
    assert!(r.record_read(1).is_err());
    assert_eq!(r.total(), 11);
    assert_eq!(r.inner_mut().len(), 3);
}

#[test]
fn offline_env_parses_truthy_and_falsy_values() {
    for val in ["1", "true", "TRUE", "True", "yes"] {
        assert!(offline_from_env(&env(&[("FILEFERRY_OFFLINE", val)])), "{val:?} should mean offline");
    }
    for val in ["0", "false", "no", ""] {
        assert!(!offline_from_env(&env(&[("FILEFERRY_OFFLINE", val)])), "{val:?} should mean online");
    }
    assert!(!offline_from_env(&env(&[])), "unset must default to online");
}

#[test]
fn offline_backend_lists_returns_upstream_error() {
    let be = OfflineBackend::new(StorageType::S3);
    match be.refusal() {
        FerryError::Upstream(msg) => {
            assert!(msg.contains("offline"));
            assert_eq!(msg, "offline mode: outbound blocked by FILEFERRY_OFFLINE");
        }
        other => panic!("expected Upstream(offline), got {other:?}"),
    }
}

#[test]
fn offline_backend_open_read_returns_upstream_error() {
    let be = OfflineBackend::new(StorageType::S3);
    assert_eq!(be.kind(), StorageType::S3);
    let e = be.refusal();
    assert!(matches!(e, FerryError::Upstream(_)), "expected Upstream error from offline backend");
    assert_eq!(e.status(), 502);
    assert_eq!(e.code(), "upstream_error");
}

#[test]
fn backends_pick_by_storage_type() {
    let b = Backends { fs: 1u8, s3: Some(2u8) };
    assert_eq!(*b.pick(StorageType::Fs).unwrap(), 1);
    assert_eq!(*b.pick(StorageType::S3).unwrap(), 2);
    let b = Backends { fs: 1u8, s3: None };
    assert!(matches!(b.pick(StorageType::S3), Err(FerryError::BackendNotConfigured(StorageType::S3))));
}

fn client() -> aws_sdk_s3::Client {
    let conf = aws_sdk_s3::config::Builder::new()
        .behavior_version(aws_sdk_s3::config::BehaviorVersion::latest())
        .region(aws_sdk_s3::config::Region::new("us-east-1"))
        .build();
    aws_sdk_s3::Client::from_conf(conf)
}

fn s3(bucket_path: &str) -> S3Backend {
    let cfg = S3Config {
        region: "us-east-1".into(),
        endpoint_url: String::new(),
        bucket: "bucket-1".into(),
        bucket_path: bucket_path.into(),
        access_key_id: "id".into(),
        secret_access_key: "secret".into(),
    };
    S3Backend::new(client(), &cfg)
}

fn object(key: &str, size: Option<i64>, t: Option<(i64, u32)>) -> S3Object {
    S3Object {
        key: Some(key.to_string()),
        size,
        last_modified: t.map(|(secs, nanos)| S3Timestamp { secs, nanos }),
    }
}

#[test]
fn s3_keys_carry_the_bucket_path() {
    assert_eq!(s3("").key("a.txt"), "a.txt");
    assert_eq!(s3("prefix").key("a.txt"), "prefixa.txt");
    assert_eq!(s3("prefix/").key("a.txt"), "prefix/a.txt");
    assert_eq!(s3("").list_prefix(), None);
    assert_eq!(s3("prefix").list_prefix().as_deref(), Some("prefix"));
    assert_eq!(s3("prefix/").list_prefix().as_deref(), Some("prefix/"));
    let be = s3("prefix");
    assert_eq!(be.bucket(), "bucket-1");
    assert_eq!(be.bucket_path(), "prefix");
    assert_eq!(be.kind(), StorageType::S3);
}

#[test]
fn s3_strip_prefix_inverts_key() {
    for bp in ["", "p", "p/", "a/b"] {
        let be = s3(bp);
        for path in ["x.txt", "dir/y.bin"] {
            assert_eq!(be.strip_prefix(&be.key(path)).as_deref(), Some(path));
        }
    }
    assert_eq!(s3("p").strip_prefix("q/x.txt"), None);
    assert_eq!(s3("p").strip_prefix("px.txt").as_deref(), Some("x.txt"));
    assert_eq!(s3("p/").strip_prefix("px.txt"), None);
}

#[test]
fn s3_listing_keeps_root_level_objects() {
    let be = s3("p/");
    let objects = vec![
        object("p/b.txt", Some(5), Some((1_577_836_800, 0))),
        object("p/nested/c.txt", Some(1), None),
        object("p/", Some(0), None),
        object("other/a.txt", Some(1), None),
        object("p/a.txt", Some(-3), Some((1_577_836_800, 500_000_000))),
        S3Object { key: None, size: Some(1), last_modified: None },
    ];
    let listed = be.list_entries(&objects, &ListOptions { limit: None, start_after: None });
    let names: Vec<&str> = listed.iter().map(|e| e.name.as_str()).collect();
    assert_eq!(names, vec!["a.txt", "b.txt"]);
    assert_eq!(listed[0].size, 0);
    assert_eq!(listed[0].last_modified.as_deref(), Some("2020-01-01T00:00:00Z"));
    assert_eq!(listed[1].size, 5);
    assert_eq!(listed[1].last_modified.as_deref(), Some("2020-01-01T00:00:00Z"));
    // Without the trailing `/` the prefix is `p` and `p/a.txt` names
    // `/a.txt`, which is not root-level.
    let be = s3("p");
    let listed = be.list_entries(&objects, &ListOptions { limit: None, start_after: None });
    assert!(listed.is_empty());
}

#[test]
fn s3_listing_reports_whole_seconds() {
    let be = s3("");
    let objects = vec![
        object("a", None, Some((1_582_934_400, 123_456_789))),
        object("b", None, Some((-1, 0))),
        object("c", None, Some((253_402_300_800, 0))),
        object("d", None, Some((0, 1_000_000))),
        object("e", None, Some((-1, 999_999_999))),
        object("f", None, Some((253_402_300_799, 999_999_999))),
    ];
    let listed = be.list_entries(&objects, &ListOptions { limit: None, start_after: None });
    assert_eq!(listed[0].last_modified.as_deref(), Some("2020-02-29T00:00:00Z"));
    assert_eq!(listed[1].last_modified.as_deref(), Some("1969-12-31T23:59:59Z"));
    // Past year 9999 the SDK refuses to format; the listing shows "".
    assert_eq!(listed[2].last_modified.as_deref(), Some(""));
    assert_eq!(listed[3].last_modified.as_deref(), Some("1970-01-01T00:00:00Z"));
    // A fraction is dropped: the entry names the second it falls in.
    assert_eq!(listed[4].last_modified.as_deref(), Some("1969-12-31T23:59:59Z"));
    assert_eq!(listed[5].last_modified.as_deref(), Some("9999-12-31T23:59:59Z"));
    assert_eq!(listed[0].size, 0);
}

#[test]
fn s3_listing_pages_after_the_cursor() {
    let be = s3("");
    let objects = vec![object("c", Some(1), None), object("a", Some(1), None), object("b", Some(1), None)];
    let page = be.list_entries(&objects, &ListOptions { limit: Some(1), start_after: Some("a".into()) });
    let names: Vec<&str> = page.iter().map(|e| e.name.as_str()).collect();
    assert_eq!(names, vec!["b"]);
}

#[test]
fn refused_timestamps_list_as_empty_text() {
    assert_eq!(timestamp_text(None), "");
    assert_eq!(timestamp_text(Some("2020-01-01T00:00:00Z".to_string())), "2020-01-01T00:00:00Z");
}

#[test]
fn s3_backend_choice_follows_config_and_offline_flag() {
    let mut cfg = AppConfig::default();
    assert_eq!(s3_backend_choice(&cfg, &env(&[("FILEFERRY_OFFLINE", "1")])), S3Choice::Disabled);
    cfg.s3 = Some(S3Config {
        region: "r".into(),
        endpoint_url: String::new(),
        bucket: "b".into(),
        bucket_path: String::new(),
        access_key_id: "a".into(),
        secret_access_key: "s".into(),
    });
    assert_eq!(s3_backend_choice(&cfg, &env(&[("FILEFERRY_OFFLINE", "yes")])), S3Choice::Offline);
    assert_eq!(s3_backend_choice(&cfg, &env(&[])), S3Choice::Live);
}

#[test]
fn limited_reader_stays_closed_after_the_cap_is_crossed() {
    // Offered reads of 40, 40, 40, 1 with a cap of 100: the first two
    // pass, the third crosses the cap, and the fourth is refused before
    // it starts although it is small.
    let mut r = LimitedReader::new((), 100);
    let mut delivered = 0u64;
    let mut outcomes = Vec::new();
    for added in [40u64, 40, 40, 1] {
        let ok = r.admit_read().is_ok() && r.record_read(added).is_ok();
        if ok {
            delivered += added;
        }
        outcomes.push(ok);
    }
    assert_eq!(outcomes, vec![true, true, false, false]);
    assert_eq!(delivered, 80);
    assert_eq!(r.total(), 120);
}

#[test]
fn finish_read_rolls_back_a_refused_read() {
    let mut r = LimitedReader::new((), 10);
    assert!(matches!(r.finish_read(0, 8), (Ok(()), 8)));
    match r.finish_read(8, 12) {
        (Err(FerryError::TransferTooLarge { cap: 10 }), keep) => assert_eq!(keep, 8),
        _ => panic!("the read crossing the cap must be refused"),
    }
    assert_eq!(r.total(), 12);
    assert!(r.admit_read().is_err());
}
