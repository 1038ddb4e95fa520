use fileferry::auth::{ct_eq_str, check_bearer, BearerCheck};

#[test]
fn ct_eq_str_matches_only_exact() {
    assert!(ct_eq_str("abc", "abc"));
    assert!(!ct_eq_str("abc", "abd"));
    assert!(!ct_eq_str("abc", "abcd"));
    assert!(!ct_eq_str("", "x"));
    assert!(ct_eq_str("", ""));
}

#[test]
fn auth_off_by_default_list_still_open() {
    let v = check_bearer(None, None);
    assert_eq!(v, BearerCheck::Open);
    assert!(v.passes());
    assert_eq!(check_bearer(None, Some("Bearer anything")), BearerCheck::Open);
}

#[test]
fn auth_required_list_rejects_missing_bearer() {
    let v = check_bearer(Some("supersecret-token"), None);
    assert_eq!(v, BearerCheck::Missing);
    assert!(!v.passes());
    assert_eq!(v.rejection_message(), Some("missing bearer token"));
}

#[test]
fn auth_required_list_rejects_wrong_bearer() {
    let v = check_bearer(Some("supersecret-token"), Some("Bearer wrong-token"));
    assert_eq!(v, BearerCheck::Invalid);
    assert_eq!(v.rejection_message(), Some("invalid bearer token"));
}

#[test]
fn auth_required_list_accepts_correct_bearer() {
    let v = check_bearer(Some("supersecret-token"), Some("Bearer supersecret-token"));
    assert_eq!(v, BearerCheck::Accepted);
    assert!(v.passes());
    assert_eq!(v.rejection_message(), None);
}

#[test]
fn bearer_token_is_trimmed_and_prefix_is_exact() {
    assert_eq!(check_bearer(Some("tok"), Some("Bearer   tok  ")), BearerCheck::Accepted);
    // Wrong scheme or lowercase prefix presents no token at all.
    assert_eq!(check_bearer(Some("tok"), Some("bearer tok")), BearerCheck::Missing);
    assert_eq!(check_bearer(Some("tok"), Some("Basic tok")), BearerCheck::Missing);
    assert_eq!(check_bearer(Some("tok"), Some("Bearer ")), BearerCheck::Missing);
    assert_eq!(check_bearer(Some("tok"), Some("Bearer tok2")), BearerCheck::Invalid);
}

#[test]
fn ct_eq_str_distinguishes_same_length_strings() {
    assert!(!ct_eq_str("token-a", "token-b"));
    assert!(ct_eq_str("€uro", "€uro"));
    assert!(!ct_eq_str("€", "e"));
}
