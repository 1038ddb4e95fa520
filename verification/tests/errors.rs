use fileferry::error::{clip_user_message, ErrorLog, FerryError, MAX_USER_MESSAGE_LEN};
use fileferry::model::StorageType;

#[test]
fn clip_user_message_leaves_short_strings_unchanged() {
    assert_eq!(clip_user_message(""), "");
    assert_eq!(clip_user_message("abc"), "abc");
    let at_cap: String = "x".repeat(MAX_USER_MESSAGE_LEN);
    assert_eq!(clip_user_message(&at_cap), at_cap);
}

#[test]
fn clip_user_message_truncates_and_marks_long_strings() {
    let over: String = "x".repeat(MAX_USER_MESSAGE_LEN + 1);
    let clipped = clip_user_message(&over);
    assert_eq!(
        clipped.chars().count(),
        MAX_USER_MESSAGE_LEN,
        "output exceeded cap: {} chars",
        clipped.chars().count()
    );
    assert!(clipped.ends_with("..."), "marker missing: {clipped}");
}

#[test]
fn clip_user_message_handles_multibyte_boundaries() {
    let over: String = "€".repeat(MAX_USER_MESSAGE_LEN + 10);
    let clipped = clip_user_message(&over);
    assert!(
        clipped.chars().count() <= MAX_USER_MESSAGE_LEN,
        "byte-truncation broke a codepoint or exceeded cap"
    );
    assert!(std::str::from_utf8(clipped.as_bytes()).is_ok());
}

#[test]
fn clip_user_message_amplification_ratio_stays_flat() {
    for input_len in [512usize, 4_096, 65_536, 1_048_576] {
        let input: String = "A".repeat(input_len);
        let out = clip_user_message(&input);
        assert!(
            out.chars().count() <= MAX_USER_MESSAGE_LEN,
            "clip failed for input len {input_len}: got {} chars",
            out.chars().count()
        );
    }
}

#[test]
fn clip_keeps_the_prefix_exactly() {
    let input: String = "abcdefghij".repeat(30);
    let out = clip_user_message(&input);
    assert_eq!(&out[..MAX_USER_MESSAGE_LEN - 3], &input[..MAX_USER_MESSAGE_LEN - 3]);
    assert_eq!(clip_user_message(&out), out);
}

#[test]
fn every_error_has_its_status_and_code() {
    let cases: Vec<(FerryError, u16, &str)> = vec![
        (FerryError::InvalidPath("x".into()), 400, "invalid_path"),
        (FerryError::SameStorageType, 400, "same_storage_type"),
        (FerryError::BackendNotConfigured(StorageType::S3), 503, "backend_not_configured"),
        (FerryError::NotFound("p".into()), 404, "not_found"),
        (FerryError::TransferTooLarge { cap: 5 }, 413, "transfer_too_large"),
        (FerryError::ListLimitTooLarge { cap: 10_000 }, 413, "list_limit_too_large"),
        (FerryError::BadQuery("q".into()), 400, "bad_query"),
        (FerryError::BadBody("b".into()), 400, "bad_body"),
        (FerryError::BodyTooLarge { cap: 0 }, 413, "body_too_large"),
        (FerryError::BodyReadTimeout, 408, "body_read_timeout"),
        (FerryError::Upstream("u".into()), 502, "upstream_error"),
        (FerryError::Io("disk".into()), 500, "io_error"),
        (FerryError::Internal("bug".into()), 500, "internal_error"),
    ];
    for (e, status, code) in cases {
        assert_eq!(e.status(), status, "{e:?}");
        assert_eq!(e.code(), code, "{e:?}");
        let r = e.reply();
        assert_eq!(r.status, status);
        assert_eq!(r.code, code);
    }
}

#[test]
fn error_messages_match_their_display_text() {
    assert_eq!(FerryError::InvalidPath("empty path".into()).message(), "path is not valid: empty path");
    assert_eq!(
        FerryError::BackendNotConfigured(StorageType::S3).message(),
        "storage backend S3 is not configured"
    );
    assert_eq!(
        FerryError::TransferTooLarge { cap: 50 }.message(),
        "transfer exceeded configured size cap of 50 bytes"
    );
    assert_eq!(
        FerryError::ListLimitTooLarge { cap: 10_000 }.message(),
        "requested list limit exceeds server cap of 10000"
    );
    assert_eq!(
        FerryError::BodyTooLarge { cap: 1024 }.message(),
        "request body exceeds server cap of 1024 bytes"
    );
    assert_eq!(FerryError::Io("boom".into()).message(), "i/o error: boom");
    assert_eq!(FerryError::SameStorageType.message(), "source and destination storage types must differ");
}

#[test]
fn copy_not_found_message_does_not_echo_marker() {
    let r = FerryError::NotFound("unique_marker_DEADBEEF".into()).reply();
    assert_eq!(r.status, 404);
    assert_eq!(r.code, "not_found");
    assert_eq!(r.message, "file not found");
    assert!(!r.message.contains("DEADBEEF"));
    match FerryError::NotFound("unique_marker_DEADBEEF".into()).log_kind() {
        ErrorLog::NotFound(p) => assert_eq!(p, "unique_marker_DEADBEEF"),
        other => panic!("expected a NotFound log, got {other:?}"),
    }
}

#[test]
fn error_message_body_bounded_regardless_of_query_size() {
    let huge = "A".repeat(4096);
    let r = FerryError::BadQuery(huge).reply();
    assert_eq!(r.status, 400);
    assert!(r.message.chars().count() <= 256, "message exceeds cap");
    assert!(r.message.ends_with("..."));
}

#[test]
fn server_errors_log_as_warnings_and_client_errors_as_debug() {
    assert!(matches!(FerryError::Upstream("x".into()).log_kind(), ErrorLog::ServerError));
    assert!(matches!(FerryError::Io("x".into()).log_kind(), ErrorLog::ServerError));
    assert!(matches!(FerryError::BackendNotConfigured(StorageType::S3).log_kind(), ErrorLog::ServerError));
    assert!(matches!(FerryError::SameStorageType.log_kind(), ErrorLog::ClientError));
    assert!(matches!(FerryError::BodyReadTimeout.log_kind(), ErrorLog::ClientError));
}
