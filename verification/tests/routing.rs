use fileferry::backend::page::page;
use fileferry::backend::{Backends, ListOptions, DEFAULT_LIST_LIMIT, MAX_LIST_LIMIT};
use fileferry::config::AppConfig;
use fileferry::error::FerryError;
use fileferry::model::{CopyFileRequest, FileEntry, ListFilesQuery, StorageType};
use fileferry::router::{api_doc_visible, list_response, plan_copy, plan_list, resolve_list_limit};

fn fs_only() -> Backends<&'static str> {
    Backends { fs: "fs", s3: None }
}

fn both() -> Backends<&'static str> {
    Backends { fs: "fs", s3: Some("s3") }
}

fn query(t: StorageType, limit: Option<usize>, start_after: Option<&str>) -> ListFilesQuery {
    ListFilesQuery { storage_type: t, limit, start_after: start_after.map(|s| s.to_string()) }
}

fn entry(name: &str) -> FileEntry {
    FileEntry { name: name.to_string(), size: 1, last_modified: None }
}

fn copy(src: StorageType, sp: &str, dst: StorageType, dp: &str) -> CopyFileRequest {
    CopyFileRequest {
        source_storage_type: src,
        source_file_path: sp.to_string(),
        destination_storage_type: dst,
        destination_file_path: dp.to_string(),
    }
}

#[test]
fn list_s3_returns_503_when_not_configured() {
    match plan_list(&fs_only(), &query(StorageType::S3, None, None)) {
        Err(e) => {
            assert!(matches!(e, FerryError::BackendNotConfigured(StorageType::S3)));
            assert_eq!(e.status(), 503);
            assert_eq!(e.code(), "backend_not_configured");
        }
        Ok(_) => panic!("S3 is not configured"),
    }
}

#[test]
fn list_limit_over_cap_returns_413() {
    match plan_list(&fs_only(), &query(StorageType::Fs, Some(10_001), None)) {
        Err(e) => {
            assert!(matches!(e, FerryError::ListLimitTooLarge { cap: 10_000 }));
            assert_eq!(e.status(), 413);
            assert_eq!(e.code(), "list_limit_too_large");
        }
        Ok(_) => panic!("limit above the cap must be refused"),
    }
}

#[test]
fn list_start_after_rejects_traversal() {
    match plan_list(&fs_only(), &query(StorageType::Fs, None, Some("../etc/passwd"))) {
        Err(e) => assert_eq!(e.code(), "invalid_path"),
        Ok(_) => panic!("traversal cursor must be refused"),
    }
}

#[test]
fn list_limit_defaults_and_bounds() {
    assert_eq!(resolve_list_limit(None).unwrap(), DEFAULT_LIST_LIMIT);
    assert_eq!(resolve_list_limit(Some(0)).unwrap(), DEFAULT_LIST_LIMIT);
    assert_eq!(resolve_list_limit(Some(1)).unwrap(), 1);
    assert_eq!(resolve_list_limit(Some(MAX_LIST_LIMIT)).unwrap(), MAX_LIST_LIMIT);
    assert!(resolve_list_limit(Some(MAX_LIST_LIMIT + 1)).is_err());
}

#[test]
fn list_plan_picks_the_backend_and_options() {
    let b = both();
    let (be, opts) = plan_list(&b, &query(StorageType::S3, Some(2), Some("b.txt"))).unwrap();
    assert_eq!(*be, "s3");
    assert_eq!(opts.limit, Some(2));
    assert_eq!(opts.start_after.as_deref(), Some("b.txt"));
    let (be, opts) = plan_list(&b, &query(StorageType::Fs, None, None)).unwrap();
    assert_eq!(*be, "fs");
    assert_eq!(opts.limit, Some(DEFAULT_LIST_LIMIT));
    assert_eq!(opts.start_after, None);
}

#[test]
fn list_pagination_returns_next_cursor_when_full() {
    let files = vec![entry("a.txt"), entry("b.txt"), entry("c.txt")];
    let (_, opts) = plan_list(&fs_only(), &query(StorageType::Fs, Some(2), None)).unwrap();
    let first = list_response(page(&files, &opts), 2);
    let names: Vec<&str> = first.data.iter().map(|e| e.name.as_str()).collect();
    assert_eq!(names, vec!["a.txt", "b.txt"]);
    assert_eq!(first.meta.count, 2);
    let cursor = first.meta.next_cursor.clone().expect("nextCursor present when page fills");
    assert_eq!(cursor, "b.txt");

    let (_, opts) = plan_list(&fs_only(), &query(StorageType::Fs, Some(2), Some(&cursor))).unwrap();
    let second = list_response(page(&files, &opts), 2);
    let names: Vec<&str> = second.data.iter().map(|e| e.name.as_str()).collect();
    assert_eq!(names, vec!["c.txt"]);
    assert_eq!(second.meta.count, 1);
    assert!(second.meta.next_cursor.is_none(), "tail page must not carry a cursor");
}

#[test]
fn page_defaults_to_default_limit_and_keeps_order() {
    let files: Vec<FileEntry> = (0..1200).rev().map(|i| entry(&format!("f{i:05}"))).collect();
    let out = page(&files, &ListOptions { limit: None, start_after: None });
    assert_eq!(out.len(), DEFAULT_LIST_LIMIT);
    assert_eq!(out[0].name, "f00000");
    assert_eq!(out[999].name, "f00999");
    let empty = list_response(Vec::new(), 0);
    assert_eq!(empty.meta.count, 0);
    assert!(empty.meta.next_cursor.is_none());
}

#[test]
fn copy_rejects_same_source_and_destination() {
    let b = both();
    let r = plan_copy(&b, &copy(StorageType::Fs, "a.txt", StorageType::Fs, "b.txt"));
    match r {
        Err(e) => assert_eq!(e.code(), "same_storage_type"),
        Ok(_) => panic!("same storage type must be refused"),
    }
}

#[test]
fn copy_rejects_traversal_path() {
    let b = both();
    let r = plan_copy(&b, &copy(StorageType::Fs, "../etc/passwd", StorageType::S3, "leak.txt"));
    match r {
        Err(e) => assert_eq!(e.code(), "invalid_path"),
        Ok(_) => panic!("traversal must be refused"),
    }
}

#[test]
fn copy_rejects_null_byte_path() {
    let b = both();
    let r = plan_copy(&b, &copy(StorageType::Fs, "harmless\u{0000}injected", StorageType::S3, "x.txt"));
    match r {
        Err(e) => assert_eq!(e.status(), 400),
        Ok(_) => panic!("null byte must be refused"),
    }
}

#[test]
fn copy_rejects_bare_dot_source_path() {
    let b = both();
    let r = plan_copy(&b, &copy(StorageType::Fs, ".", StorageType::S3, "leak.txt"));
    match r {
        Err(e) => {
            assert_eq!(e.code(), "invalid_path");
            let msg = e.reply().message;
            assert!(!msg.contains("os error"), "response must not leak raw OS error: {msg}");
        }
        Ok(_) => panic!("bare dot must be refused"),
    }
}

#[test]
fn copy_plans_source_and_destination_backends() {
    let b = both();
    let (src, dst) = plan_copy(&b, &copy(StorageType::Fs, "input.bin", StorageType::S3, "output.bin")).unwrap();
    assert_eq!((*src, *dst), ("fs", "s3"));
    let (src, dst) = plan_copy(&b, &copy(StorageType::S3, "input.bin", StorageType::Fs, "output.bin")).unwrap();
    assert_eq!((*src, *dst), ("s3", "fs"));
    match plan_copy(&fs_only(), &copy(StorageType::Fs, "a", StorageType::S3, "b")) {
        Err(e) => assert_eq!(e.code(), "backend_not_configured"),
        Ok(_) => panic!("S3 is not configured"),
    }
}

#[test]
fn openapi_returns_404_when_admin_disabled_by_default() {
    assert!(!api_doc_visible(&AppConfig::default()));
}

#[test]
fn openapi_returns_404_when_admin_enabled_but_docs_disabled() {
    let mut cfg = AppConfig::default();
    cfg.security.admin_enabled = true;
    cfg.documentation_enabled = false;
    assert!(!api_doc_visible(&cfg));
    cfg.documentation_enabled = true;
    assert!(api_doc_visible(&cfg));
}

#[test]
fn plan_refusals_carry_the_validator_message() {
    let b = both();
    match plan_list(&b, &query(StorageType::Fs, None, Some("a b"))) {
        Err(FerryError::InvalidPath(m)) => {
            assert_eq!(m, "path contains disallowed characters (allowed: 0-9 a-z A-Z - . _ /)")
        }
        _ => panic!("bad cursor must be refused"),
    }
    match plan_copy(&b, &copy(StorageType::Fs, "../x", StorageType::S3, "y")) {
        Err(FerryError::InvalidPath(m)) => assert_eq!(m, "path traversal detected"),
        _ => panic!("bad source must be refused"),
    }
    match plan_copy(&b, &copy(StorageType::Fs, "x", StorageType::S3, "")) {
        Err(FerryError::InvalidPath(m)) => assert_eq!(m, "empty path"),
        _ => panic!("bad destination must be refused"),
    }
    let fs = fs_only();
    match plan_copy(&fs, &copy(StorageType::S3, "x", StorageType::Fs, "y")) {
        Err(FerryError::BackendNotConfigured(StorageType::S3)) => {}
        _ => panic!("missing S3 must be refused"),
    }
}
