use fileferry::error::FerryError;
use fileferry::validate::validate_path;

#[test]
fn accepts_typical_filename() {
    assert!(validate_path("hello.txt").is_ok());
    assert!(validate_path("nested/dir/file-1_final.v2.txt").is_ok());
    assert!(validate_path("a").is_ok());
}

#[test]
fn rejects_empty() {
    assert!(matches!(validate_path(""), Err(FerryError::InvalidPath(_))));
}

#[test]
fn rejects_null_byte() {
    assert!(matches!(validate_path("foo\0bar"), Err(FerryError::InvalidPath(_))));
}

#[test]
fn rejects_traversal_various_shapes() {
    for p in ["../etc/passwd", "foo/../bar", "foo/..", "..", "./..", "a/b/../c"] {
        assert!(
            matches!(validate_path(p), Err(FerryError::InvalidPath(_))),
            "{p:?} should be rejected"
        );
    }
}

#[test]
fn rejects_bare_dot_and_dot_segments() {
    for p in [".", "./", "/.", "a/./b", "foo/.", "./foo", "a/.", "."] {
        assert!(
            matches!(validate_path(p), Err(FerryError::InvalidPath(_))),
            "{p:?} should be rejected"
        );
    }
}

#[test]
fn rejects_disallowed_chars() {
    for p in [
        "hello world.txt",
        "café.txt",
        "back\\slash",
        "with?query",
        "with#hash",
        "with$dollar",
        "with@at",
    ] {
        assert!(
            matches!(validate_path(p), Err(FerryError::InvalidPath(_))),
            "{p:?} should be rejected"
        );
    }
}

#[test]
fn accepts_dot_prefix_filenames() {
    assert!(validate_path(".hidden").is_ok());
    assert!(validate_path("nested/.hidden").is_ok());
}

#[test]
fn rejection_reasons_name_the_failed_rule() {
    fn reason(p: &str) -> String {
        match validate_path(p) {
            Err(FerryError::InvalidPath(m)) => m,
            other => panic!("expected InvalidPath for {p:?}, got {other:?}"),
        }
    }
    assert_eq!(reason(""), "empty path");
    assert_eq!(reason("a\0b"), "null byte in path");
    assert_eq!(
        reason("a b"),
        "path contains disallowed characters (allowed: 0-9 a-z A-Z - . _ /)"
    );
    assert_eq!(reason("a/../b"), "path traversal detected");
    // A null byte is reported as such even though it is also outside
    // the allowed set: the checks run in order.
    assert_eq!(reason("..\0"), "null byte in path");
}

#[test]
fn dot_dot_inside_a_name_is_accepted() {
    assert!(validate_path("..hidden").is_ok());
    assert!(validate_path("a..b/c").is_ok());
    assert!(validate_path("a//b").is_ok());
}
