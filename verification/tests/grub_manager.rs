use bootcontrol::error::BootControlError;
use bootcontrol::etag::compute_etag_str;
use bootcontrol::grub::{
    build_assignment_line, is_assignment_for_key, parse_grub_config, rewrite_grub_content,
};

const SIMPLE_GRUB: &str = "\
# This is a comment — preserved verbatim
GRUB_DEFAULT=0
GRUB_TIMEOUT=5
GRUB_CMDLINE_LINUX_DEFAULT=\"quiet splash\"
GRUB_DISTRIBUTOR=\"Ubuntu\"
";

fn get(content: &str, key: &str) -> Option<String> {
    parse_grub_config(content).expect("parse").get(key)
}

#[test]
fn is_assignment_for_key_matches_plain() {
    assert!(is_assignment_for_key("GRUB_TIMEOUT=5", "GRUB_TIMEOUT"));
}

#[test]
fn is_assignment_for_key_matches_quoted() {
    assert!(is_assignment_for_key(
        "GRUB_CMDLINE_LINUX_DEFAULT=\"quiet\"",
        "GRUB_CMDLINE_LINUX_DEFAULT"
    ));
}

#[test]
fn is_assignment_for_key_does_not_match_different_key() {
    assert!(!is_assignment_for_key("GRUB_DEFAULT=0", "GRUB_TIMEOUT"));
}

#[test]
fn is_assignment_for_key_does_not_match_comment() {
    assert!(!is_assignment_for_key("# GRUB_TIMEOUT=5", "GRUB_TIMEOUT"));
}

#[test]
fn build_assignment_line_unquotes_simple_value() {
    assert_eq!(build_assignment_line("GRUB_TIMEOUT", "5"), "GRUB_TIMEOUT=5");
}

#[test]
fn build_assignment_line_quotes_value_with_spaces() {
    assert_eq!(
        build_assignment_line("GRUB_CMDLINE_LINUX_DEFAULT", "quiet splash"),
        r#"GRUB_CMDLINE_LINUX_DEFAULT="quiet splash""#
    );
}

#[test]
fn build_assignment_line_quotes_empty_value() {
    assert_eq!(
        build_assignment_line("GRUB_CMDLINE_LINUX", ""),
        r#"GRUB_CMDLINE_LINUX="""#
    );
}

#[test]
fn read_grub_config_returns_map_and_64_char_etag() {
    let etag = compute_etag_str(SIMPLE_GRUB);
    assert_eq!(etag.len(), 64);
    assert_eq!(get(SIMPLE_GRUB, "GRUB_TIMEOUT").as_deref(), Some("5"));
    assert_eq!(
        get(SIMPLE_GRUB, "GRUB_CMDLINE_LINUX_DEFAULT").as_deref(),
        Some("quiet splash")
    );
}

#[test]
fn set_grub_value_rejects_stale_etag() {
    let stale_etag = compute_etag_str("completely different content\n");
    let result = rewrite_grub_content(SIMPLE_GRUB, "GRUB_TIMEOUT", "10", &stale_etag);
    assert!(
        matches!(result, Err(BootControlError::StateMismatch { .. })),
        "expected StateMismatch, got {result:?}"
    );
}

#[test]
fn set_grub_value_updates_existing_key() {
    let etag = compute_etag_str(SIMPLE_GRUB);
    let written = rewrite_grub_content(SIMPLE_GRUB, "GRUB_TIMEOUT", "10", &etag)
        .expect("write should succeed");
    assert_eq!(get(&written, "GRUB_TIMEOUT").as_deref(), Some("10"));
}

#[test]
fn set_grub_value_appends_new_key() {
    let etag = compute_etag_str(SIMPLE_GRUB);
    let written = rewrite_grub_content(SIMPLE_GRUB, "GRUB_GFXMODE", "auto", &etag)
        .expect("write should succeed");
    assert_eq!(get(&written, "GRUB_GFXMODE").as_deref(), Some("auto"));
}

#[test]
fn set_grub_value_updates_last_occurrence_of_duplicate_key() {
    let content = "GRUB_TIMEOUT=5\nGRUB_DEFAULT=0\nGRUB_TIMEOUT=99\n";
    let etag = compute_etag_str(content);
    let written = rewrite_grub_content(content, "GRUB_TIMEOUT", "10", &etag).expect("write");
    assert!(written.contains("GRUB_TIMEOUT=5"));
    assert!(written.contains("GRUB_TIMEOUT=10"));
    assert!(!written.contains("GRUB_TIMEOUT=99"));
    assert_eq!(get(&written, "GRUB_TIMEOUT").as_deref(), Some("10"));
}

#[test]
fn set_grub_value_preserves_comments_exactly() {
    let etag = compute_etag_str(SIMPLE_GRUB);
    let written = rewrite_grub_content(SIMPLE_GRUB, "GRUB_TIMEOUT", "99", &etag).expect("write");
    assert!(written.contains("# This is a comment — preserved verbatim"));
}

#[test]
fn set_grub_value_preserves_other_assignments_verbatim() {
    let etag = compute_etag_str(SIMPLE_GRUB);
    let written = rewrite_grub_content(SIMPLE_GRUB, "GRUB_TIMEOUT", "99", &etag).expect("write");
    assert_eq!(get(&written, "GRUB_DEFAULT").as_deref(), Some("0"));
    assert_eq!(
        get(&written, "GRUB_CMDLINE_LINUX_DEFAULT").as_deref(),
        Some("quiet splash")
    );
    assert_eq!(get(&written, "GRUB_DISTRIBUTOR").as_deref(), Some("Ubuntu"));
}

#[test]
fn etag_changes_after_external_modification() {
    let etag_before = compute_etag_str(SIMPLE_GRUB);
    let modified = SIMPLE_GRUB.replace("GRUB_TIMEOUT=5", "GRUB_TIMEOUT=99");
    let etag_after = compute_etag_str(&modified);
    assert_ne!(etag_before, etag_after);
    let result = rewrite_grub_content(&modified, "GRUB_DEFAULT", "1", &etag_before);
    assert!(matches!(result, Err(BootControlError::StateMismatch { .. })));
}

#[test]
fn etag_is_lowercase_sha256_hex() {
    assert_eq!(
        compute_etag_str(""),
        "e3b0c44298fc1c149afbf4c8996fb92427ae41e4649b934ca495991b7852b855"
    );
    assert_eq!(
        compute_etag_str("abc"),
        "ba7816bf8f01cfea414140de5dae2223b00361a396177a9cb410ff61f20015ad"
    );
}

#[test]
fn shell_substitution_is_complex_bash() {
    let content = "GRUB_DISTRIBUTOR=`lsb_release -i -s`\n";
    match parse_grub_config(content) {
        Err(BootControlError::ComplexBashDetected { offender }) => {
            assert_eq!(offender, "GRUB_DISTRIBUTOR=`lsb_release -i -s`");
        }
        other => panic!("expected ComplexBashDetected, got {:?}", other.map(|c| c.lines)),
    }
    let etag = compute_etag_str(content);
    assert!(matches!(
        rewrite_grub_content(content, "GRUB_TIMEOUT", "1", &etag),
        Err(BootControlError::ComplexBashDetected { .. })
    ));
}

#[test]
fn single_quotes_and_last_assignment_win() {
    let content = "  GRUB_A='one two'\nGRUB_A=three\n\n# GRUB_A=four\n";
    assert_eq!(get(content, "GRUB_A").as_deref(), Some("three"));
    let pairs = parse_grub_config(content).unwrap().assignments();
    assert_eq!(
        pairs,
        vec![
            ("GRUB_A".to_string(), "one two".to_string()),
            ("GRUB_A".to_string(), "three".to_string())
        ]
    );
}

#[test]
fn crlf_lines_are_written_back_unchanged() {
    let content = "# note\r\nGRUB_TIMEOUT=5\r\n";
    let etag = compute_etag_str(content);
    let written = rewrite_grub_content(content, "GRUB_DEFAULT", "1>0", &etag).unwrap();
    assert_eq!(written, "# note\r\nGRUB_TIMEOUT=5\r\nGRUB_DEFAULT=1>0\n");
    assert_eq!(get(&written, "GRUB_DEFAULT").as_deref(), Some("1>0"));
    assert_eq!(get(&written, "GRUB_TIMEOUT").as_deref(), Some("5"));
}
