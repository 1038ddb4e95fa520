use fileferry::audit::{copy_audit, digest_prefix_hex, path_hash};
use fileferry::cli::{is_doctor_invocation, log_ansi, parse_config_arg};
use fileferry::config::EnvVars;
use fileferry::model::{CopyFileRequest, StorageType};

fn args(a: &[&str]) -> Vec<String> {
    a.iter().map(|s| s.to_string()).collect()
}

fn env(pairs: &[(&str, &str)]) -> EnvVars {
    EnvVars { vars: pairs.iter().map(|(k, v)| (k.to_string(), v.to_string())).collect() }
}

#[test]
fn config_flag_in_both_forms() {
    assert_eq!(parse_config_arg(&args(&["fileferry", "--config", "a.yaml"])).as_deref(), Some("a.yaml"));
    assert_eq!(parse_config_arg(&args(&["fileferry", "--config=b.yaml"])).as_deref(), Some("b.yaml"));
    assert_eq!(parse_config_arg(&args(&["fileferry", "doctor", "--config", "c.yaml"])).as_deref(), Some("c.yaml"));
    assert_eq!(parse_config_arg(&args(&["fileferry", "--config"])), None);
    assert_eq!(parse_config_arg(&args(&["fileferry"])), None);
    assert_eq!(parse_config_arg(&args(&[])), None);
    // The first occurrence wins, and the program name is never a flag.
    assert_eq!(parse_config_arg(&args(&["--config=x", "--config=y", "--config=z"])).as_deref(), Some("y"));
    assert_eq!(parse_config_arg(&args(&["fileferry", "--config=", "--config", "d"])).as_deref(), Some(""));
}

#[test]
fn doctor_subcommand_detection() {
    assert!(is_doctor_invocation(&args(&["fileferry", "doctor"])));
    assert!(is_doctor_invocation(&args(&["fileferry", "--config", "x", "doctor"])));
    assert!(!is_doctor_invocation(&args(&["fileferry", "--config", "doctor.yaml"])));
    assert!(!is_doctor_invocation(&args(&["fileferry"])));
}

#[test]
fn log_ansi_overrides_terminal_detection() {
    assert!(log_ansi(&env(&[("LOG_ANSI", "1")]), false));
    assert!(log_ansi(&env(&[("LOG_ANSI", "true")]), false));
    assert!(!log_ansi(&env(&[("LOG_ANSI", "0")]), true));
    assert!(!log_ansi(&env(&[("LOG_ANSI", "false")]), true));
    assert!(log_ansi(&env(&[("LOG_ANSI", "maybe")]), true));
    assert!(!log_ansi(&env(&[]), false));
    assert!(log_ansi(&env(&[]), true));
}

#[test]
fn path_hash_is_the_sha256_prefix() {
    // SHA-256("") = e3b0c44298fc1c14..., SHA-256("abc") = ba7816bf8f01cfea...
    assert_eq!(path_hash(""), "e3b0c44298fc");
    assert_eq!(path_hash("abc"), "ba7816bf8f01");
    let h = path_hash("/opt/tenant-A-billing/2026-Q3.csv");
    assert_eq!(h.len(), 12);
    assert!(h.chars().all(|c| c.is_ascii_hexdigit() && !c.is_ascii_uppercase()));
    assert_ne!(h, path_hash("/opt/tenant-B-billing/2026-Q3.csv"));
}

#[test]
fn copy_audit_hides_the_paths() {
    let req = CopyFileRequest {
        source_storage_type: StorageType::Fs,
        source_file_path: "abc".into(),
        destination_storage_type: StorageType::S3,
        destination_file_path: "".into(),
    };
    let a = copy_audit(&req, 1_048_576);
    assert_eq!(a.source, StorageType::Fs);
    assert_eq!(a.destination, StorageType::S3);
    assert_eq!(a.source_path_hash, "ba7816bf8f01");
    assert_eq!(a.destination_path_hash, "e3b0c44298fc");
    assert_eq!(a.bytes, 1_048_576);
}

#[test]
fn digest_prefix_is_six_bytes_of_hex() {
    let d: Vec<u8> = vec![0xde, 0xad, 0xbe, 0xef, 0x00, 0x0f, 0xff, 0x10];
    assert_eq!(digest_prefix_hex(&d), "deadbeef000f");
}
