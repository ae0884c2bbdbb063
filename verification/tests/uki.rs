use bootcontrol::error::BootControlError;
use bootcontrol::etag::{compute_etag, compute_etag_str, verify_etag};
use bootcontrol::uki::{
    add_kernel_param_content, add_param, parse_cmdline, remove_kernel_param_content, remove_param,
};

const CMDLINE: &str = "root=/dev/sda1 rw quiet splash\n";

#[test]
fn read_returns_parsed_params_and_64char_etag() {
    let params = parse_cmdline(CMDLINE);
    let etag = compute_etag_str(CMDLINE);
    assert_eq!(etag.len(), 64);
    assert!(params.contains(&"quiet".to_string()));
    assert!(params.contains(&"root=/dev/sda1".to_string()));
}

#[test]
fn add_param_appends_to_cmdline() {
    let etag = compute_etag_str(CMDLINE);
    let updated = add_kernel_param_content(CMDLINE, "loglevel=3", &etag).unwrap();
    let params = parse_cmdline(&updated);
    assert!(params.contains(&"loglevel=3".to_string()));
    assert_eq!(updated, "root=/dev/sda1 rw quiet splash loglevel=3\n");
}

#[test]
fn add_param_rejects_stale_etag() {
    let result = add_kernel_param_content(CMDLINE, "loglevel=3", "stale-etag");
    assert!(matches!(result, Err(BootControlError::StateMismatch { .. })));
}

#[test]
fn add_param_rejects_blacklisted_param() {
    let etag = compute_etag_str(CMDLINE);
    let result = add_kernel_param_content(CMDLINE, "selinux=0", &etag);
    assert!(matches!(
        result,
        Err(BootControlError::SecurityPolicyViolation { .. })
    ));
}

#[test]
fn remove_param_removes_from_cmdline() {
    let etag = compute_etag_str(CMDLINE);
    let updated = remove_kernel_param_content(CMDLINE, "quiet", &etag).unwrap();
    let params = parse_cmdline(&updated);
    assert!(!params.contains(&"quiet".to_string()));
    assert_eq!(params, vec!["root=/dev/sda1", "rw", "splash"]);
}

#[test]
fn remove_param_rejects_stale_etag() {
    let result = remove_kernel_param_content(CMDLINE, "quiet", "stale-etag");
    assert!(matches!(result, Err(BootControlError::StateMismatch { .. })));
}

#[test]
fn adding_a_present_param_changes_nothing() {
    let text = add_param(CMDLINE, "quiet").unwrap();
    assert_eq!(parse_cmdline(&text), parse_cmdline(CMDLINE));
}

#[test]
fn param_must_be_one_word() {
    assert!(matches!(add_param(CMDLINE, "a b"), Err(BootControlError::MalformedValue { .. })));
    assert!(matches!(add_param(CMDLINE, ""), Err(BootControlError::MalformedValue { .. })));
}

#[test]
fn removing_an_absent_param_is_key_not_found() {
    assert_eq!(
        remove_param(CMDLINE, "nosuch"),
        Err(BootControlError::KeyNotFound { key: "nosuch".into() })
    );
}

#[test]
fn etag_is_sha256_hex() {
    assert_eq!(
        compute_etag(b""),
        "e3b0c44298fc1c149afbf4c8996fb92427ae41e4649b934ca495991b7852b855"
    );
    assert_eq!(
        compute_etag_str("abc"),
        "ba7816bf8f01cfea414140de5dae2223b00361a396177a9cb410ff61f20015ad"
    );
    assert!(verify_etag(&compute_etag_str("abc"), b"abc"));
    assert!(!verify_etag("abc", b"abc"));
}
