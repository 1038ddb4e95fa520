use fileferry::backend::fs::{
    check_link, format_rfc3339, read_open_error, write_open_error, DirEntryInfo, EntryMeta,
    FsBackend, LinkStatus, OpenFailure,
};
use fileferry::backend::root_path::{is_ancestor, join_path};
use fileferry::backend::ListOptions;
use fileferry::config::FsConfig;
use fileferry::error::FerryError;
use fileferry::model::StorageType;

fn backend(root: &str) -> FsBackend {
    FsBackend::new(&FsConfig { data_directory: root.to_string() })
}

fn file(name: &str, len: u64, modified: Option<u64>) -> DirEntryInfo {
    DirEntryInfo {
        name: name.to_string(),
        meta: Some(EntryMeta { is_symlink: false, is_file: true, len, modified_secs: modified }),
    }
}

fn dir(name: &str) -> DirEntryInfo {
    DirEntryInfo {
        name: name.to_string(),
        meta: Some(EntryMeta { is_symlink: false, is_file: false, len: 4096, modified_secs: None }),
    }
}

fn symlink(name: &str) -> DirEntryInfo {
    DirEntryInfo {
        name: name.to_string(),
        meta: Some(EntryMeta { is_symlink: true, is_file: false, len: 11, modified_secs: None }),
    }
}

fn all() -> ListOptions {
    ListOptions { limit: None, start_after: None }
}

#[test]
fn rfc3339_known_value() {
    assert_eq!(format_rfc3339(1_577_836_800), "2020-01-01T00:00:00Z");
    assert_eq!(format_rfc3339(1_582_934_400), "2020-02-29T00:00:00Z");
    assert_eq!(format_rfc3339(0), "1970-01-01T00:00:00Z");
}

#[test]
fn rfc3339_more_known_values() {
    assert_eq!(format_rfc3339(951_782_400), "2000-02-29T00:00:00Z");
    assert_eq!(format_rfc3339(4_102_444_799), "2099-12-31T23:59:59Z");
    assert_eq!(format_rfc3339(1_234_567_890), "2009-02-13T23:31:30Z");
    assert_eq!(format_rfc3339(253_402_300_800), "10000-01-01T00:00:00Z");
}

#[test]
fn list_returns_only_files_in_root() {
    let be = backend("/srv/data");
    let entries = vec![file("a.txt", 5, None), file("b.txt", 5, None), dir("nested")];
    let names: Vec<String> = be.list(&entries, &all()).into_iter().map(|f| f.name).collect();
    assert_eq!(names, vec!["a.txt", "b.txt"]);
}

#[test]
fn list_skips_symlinks() {
    let be = backend("/srv/data");
    let entries = vec![file("real.txt", 5, None), symlink("pwned")];
    let names: Vec<String> = be.list(&entries, &all()).into_iter().map(|f| f.name).collect();
    assert_eq!(names, vec!["real.txt"], "symlink must not be listed");
}

#[test]
fn list_skips_unreadable_entries_and_sorts_by_name() {
    let be = backend("/srv/data");
    let entries = vec![
        file("c.txt", 3, Some(0)),
        DirEntryInfo { name: "gone.txt".to_string(), meta: None },
        file("a.txt", 1, Some(1_577_836_800)),
        file("B.txt", 2, None),
    ];
    let listed = be.list(&entries, &all());
    let names: Vec<&str> = listed.iter().map(|f| f.name.as_str()).collect();
    assert_eq!(names, vec!["B.txt", "a.txt", "c.txt"]);
    assert_eq!(listed[1].size, 1);
    assert_eq!(listed[1].last_modified.as_deref(), Some("2020-01-01T00:00:00Z"));
    assert_eq!(listed[0].last_modified, None);
    assert_eq!(listed[2].last_modified.as_deref(), Some("1970-01-01T00:00:00Z"));
}

#[test]
fn list_pages_after_the_cursor() {
    let be = backend("/srv/data");
    let entries = vec![file("c.txt", 1, None), file("a.txt", 1, None), file("b.txt", 1, None)];
    let first = be.list(&entries, &ListOptions { limit: Some(2), start_after: None });
    let names: Vec<&str> = first.iter().map(|f| f.name.as_str()).collect();
    assert_eq!(names, vec!["a.txt", "b.txt"]);
    let rest = be.list(&entries, &ListOptions { limit: Some(2), start_after: Some("b.txt".to_string()) });
    let names: Vec<&str> = rest.iter().map(|f| f.name.as_str()).collect();
    assert_eq!(names, vec!["c.txt"]);
}

#[test]
fn resolve_error_does_not_echo_user_path() {
    let be = backend("/tmp/fileferry-root");
    let attacker_input = "/etc/passwd-DEADBEEF";
    match be.resolve("/tmp/fileferry-root", attacker_input) {
        Err(FerryError::InvalidPath(msg)) => {
            assert!(!msg.contains("DEADBEEF"), "error must not echo user input: {msg}");
            assert_eq!(msg, "resolved path escapes fs root");
        }
        Err(other) => panic!("expected InvalidPath, got {other:?}"),
        Ok(p) => panic!("expected InvalidPath, resolve returned {p:?}"),
    }
}

#[test]
fn resolve_joins_relative_paths_under_the_root() {
    let be = backend("./data");
    assert_eq!(be.resolve("/abs/data", "sub/dir/file.bin").unwrap(), "./data/sub/dir/file.bin");
    let be = backend("/srv/data/");
    assert_eq!(be.resolve("/srv/data", "a.txt").unwrap(), "/srv/data/a.txt");
    let be = backend("");
    assert_eq!(be.resolve("/cwd", "a.txt").unwrap(), "a.txt");
}

#[test]
fn resolve_accepts_absolute_paths_under_the_root_or_its_canonical_form() {
    let be = backend("/srv/data");
    assert_eq!(be.resolve("/srv/data", "/srv/data/x.txt").unwrap(), "/srv/data/x.txt");
    assert_eq!(be.resolve("/srv/data", "//srv//data/./x.txt").unwrap(), "//srv//data/./x.txt");
    let be = backend("./data");
    assert_eq!(be.resolve("/real/data", "/real/data/x").unwrap(), "/real/data/x");
    assert!(be.resolve("/real/data", "/real/database").is_err());
    assert!(be.resolve("/real/data", "/real").is_err());
}

#[test]
fn ancestors_compare_by_components() {
    assert!(is_ancestor("/", "/etc/passwd"));
    assert!(is_ancestor("/a/b/", "/a/b"));
    assert!(is_ancestor("/a/./b", "/a/b/c"));
    assert!(!is_ancestor("/a/b", "/a/bc"));
    assert!(!is_ancestor("a", "/a/b"));
    assert!(!is_ancestor("/a/b/c", "/a/b"));
    assert_eq!(join_path("/root", "/etc"), "/etc");
    assert_eq!(join_path("/root", "x"), "/root/x");
}

#[test]
fn open_read_missing_is_notfound() {
    match read_open_error(OpenFailure::NotFound("No such file".into()), "nope.txt") {
        FerryError::NotFound(p) => assert_eq!(p, "nope.txt"),
        other => panic!("expected NotFound, got {other:?}"),
    }
}

#[test]
fn open_read_rejects_symlink() {
    match check_link(LinkStatus::Symlink) {
        Err(FerryError::InvalidPath(msg)) => {
            assert!(msg.contains("symlink"), "message should say symlinks are rejected: {msg}");
        }
        other => panic!("expected InvalidPath, got {other:?}"),
    }
    match read_open_error(OpenFailure::SymlinkLoop, "pwned") {
        FerryError::InvalidPath(msg) => assert!(msg.contains("symlink")),
        other => panic!("expected InvalidPath, got {other:?}"),
    }
}

#[test]
fn write_all_refuses_symlink_destination() {
    assert!(matches!(write_open_error(OpenFailure::SymlinkLoop), FerryError::InvalidPath(_)));
    match write_open_error(OpenFailure::NotFound("parent missing".into())) {
        FerryError::Io(m) => assert_eq!(m, "parent missing"),
        other => panic!("expected Io, got {other:?}"),
    }
}

#[test]
fn link_lookup_outcomes() {
    assert!(check_link(LinkStatus::NotSymlink).is_ok());
    assert!(check_link(LinkStatus::Missing).is_ok());
    match check_link(LinkStatus::Unreadable("permission denied".into())) {
        Err(FerryError::Io(m)) => assert_eq!(m, "permission denied"),
        other => panic!("expected Io, got {other:?}"),
    }
}

#[test]
fn fs_backend_reports_its_root_and_kind() {
    let be = backend("./data");
    assert_eq!(be.root(), "./data");
    assert_eq!(be.kind(), StorageType::Fs);
}
