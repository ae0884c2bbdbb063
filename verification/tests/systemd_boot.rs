use bootcontrol::error::BootControlError;
use bootcontrol::etag::compute_etag_str;
use bootcontrol::systemd_boot::{
    check_expected_etag, entry_file_name, entry_id_of, entry_record, is_entry_default,
    loader_conf_default, loader_conf_rewrite, loader_conf_with_default, parse_loader_entry, serialize_loader_entry,
    read_all_entries, sort_by_id, update_or_append_key, validate_entry_id, EntryRecord,
};

const ARCH_ENTRY: &str = "\
title   Arch Linux
linux   /vmlinuz-linux
initrd  /initramfs-linux.img
options root=/dev/sda1 rw quiet
";

const FALLBACK_ENTRY: &str = "\
title   Arch Linux (fallback)
linux   /vmlinuz-linux
initrd  /initramfs-linux-fallback.img
options root=/dev/sda1 rw
";

const LOADER_CONF: &str = "timeout 5\ndefault arch\n";

/// The records of a directory listing whose files were all readable.
fn read_all(files: &[(&str, &str)], loader_conf: &str) -> Vec<EntryRecord> {
    let names: Vec<String> = files.iter().map(|(n, _)| n.to_string()).collect();
    let contents: Vec<Option<String>> = files.iter().map(|(_, c)| Some(c.to_string())).collect();
    read_all_entries(&names, &contents, Some(loader_conf))
}

#[test]
fn read_all_entries_skips_unreadable_and_non_conf_files() {
    let names = vec!["arch.conf".to_string(), "notes.txt".to_string(), "broken.conf".to_string()];
    let contents = vec![Some(ARCH_ENTRY.to_string()), Some("x".to_string()), None];
    let records = read_all_entries(&names, &contents, None);
    assert_eq!(records.len(), 1);
    assert_eq!(records[0].id, "arch");
    assert!(!records[0].is_default);
}

#[test]
fn read_all_entries_returns_sorted_records() {
    let records = read_all(
        &[("fallback.conf", FALLBACK_ENTRY), ("arch.conf", ARCH_ENTRY)],
        LOADER_CONF,
    );
    assert_eq!(records.len(), 2);
    assert_eq!(records[0].id, "arch");
    assert_eq!(records[1].id, "fallback");
}

#[test]
fn read_all_entries_marks_default_correctly() {
    let records = read_all(
        &[("arch.conf", ARCH_ENTRY), ("fallback.conf", FALLBACK_ENTRY)],
        LOADER_CONF,
    );
    let arch = records.iter().find(|r| r.id == "arch").unwrap();
    let fallback = records.iter().find(|r| r.id == "fallback").unwrap();
    assert!(arch.is_default);
    assert!(!fallback.is_default);
    assert_eq!(arch.title.as_deref(), Some("Arch Linux"));
    assert_eq!(arch.options.as_deref(), Some("root=/dev/sda1 rw quiet"));
    assert_eq!(arch.etag, compute_etag_str(ARCH_ENTRY));
}

#[test]
fn read_all_entries_skips_non_conf_files() {
    let records = read_all(&[("arch.conf", ARCH_ENTRY), ("README.txt", "ignored")], "");
    assert_eq!(records.len(), 1);
}

#[test]
fn is_entry_default_bare_stem() {
    assert!(is_entry_default("arch", "arch"));
}

#[test]
fn is_entry_default_with_conf_suffix() {
    assert!(is_entry_default("arch", "arch.conf"));
}

#[test]
fn is_entry_default_no_match() {
    assert!(!is_entry_default("arch", "fallback"));
}

#[test]
fn set_loader_default_updates_existing_default() {
    let etag = compute_etag_str(LOADER_CONF);
    assert!(check_expected_etag(&etag, Some(LOADER_CONF.as_bytes())).is_ok());
    let updated = loader_conf_with_default(Some(LOADER_CONF), "fallback").unwrap();
    assert_eq!(loader_conf_default(&updated), "fallback");
    assert_eq!(updated, "timeout 5\ndefault fallback\n");
}

#[test]
fn set_loader_default_rejects_stale_etag() {
    let result = check_expected_etag("stale-etag-xyz", Some(LOADER_CONF.as_bytes()));
    assert!(matches!(result, Err(BootControlError::StateMismatch { .. })));
}

#[test]
fn empty_expected_etag_is_only_for_a_missing_file() {
    assert!(check_expected_etag("", None).is_ok());
    assert!(matches!(
        check_expected_etag("", Some(b"default arch\n")),
        Err(BootControlError::StateMismatch { .. })
    ));
    assert!(matches!(
        check_expected_etag("abc", None),
        Err(BootControlError::StateMismatch { .. })
    ));
}

#[test]
fn write_loader_entry_creates_new_file() {
    let entry = parse_loader_entry(ARCH_ENTRY);
    assert!(validate_entry_id("arch").is_ok());
    assert_eq!(entry_file_name("arch"), "arch.conf");
    let content = serialize_loader_entry(&entry);
    assert!(content.contains("Arch Linux"));
}

#[test]
fn write_loader_entry_rejects_path_traversal() {
    let result = validate_entry_id("../evil");
    assert!(matches!(result, Err(BootControlError::MalformedValue { .. })));
    assert!(matches!(
        loader_conf_with_default(Some(LOADER_CONF), "a/b"),
        Err(BootControlError::MalformedValue { .. })
    ));
}

#[test]
fn update_or_append_key_updates_existing() {
    let content = "timeout 5\ndefault arch\n";
    let result = update_or_append_key(content, "default", "fallback");
    assert!(result.contains("default fallback"));
    assert!(!result.contains("default arch\n"));
}

#[test]
fn update_or_append_key_appends_new() {
    let content = "timeout 5\n";
    let result = update_or_append_key(content, "default", "arch");
    assert!(result.contains("default arch"));
    assert_eq!(result, "timeout 5\ndefault arch\n");
}

#[test]
fn loader_conf_created_when_missing() {
    assert_eq!(loader_conf_with_default(None, "arch").unwrap(), "default arch\n");
}

#[test]
fn loader_entry_round_trips_through_its_text() {
    let entry = parse_loader_entry(ARCH_ENTRY);
    let text = serialize_loader_entry(&entry);
    assert_eq!(parse_loader_entry(&text), entry);
}

#[test]
fn key_match_ignores_case_of_existing_line() {
    assert_eq!(
        update_or_append_key("timeout 3\nDEFAULT arch\n", "default", "fallback"),
        "timeout 3\ndefault fallback\n"
    );
}

#[test]
fn default_reads_back_after_setting_it() {
    for content in ["", "timeout 5\n", "  Default old\r\n#default x\n", "default a\ndefault b\n"] {
        let t = loader_conf_with_default(Some(content), "arch").unwrap();
        assert_eq!(loader_conf_default(&t), "arch");
    }
}

#[test]
fn loader_conf_rewrite_checks_the_id_before_the_etag() {
    let result = loader_conf_rewrite(Some("default arch\n"), "../evil", "wrong");
    assert!(matches!(result, Err(BootControlError::MalformedValue { ref key, .. }) if key == "id"));
}

#[test]
fn loader_conf_rewrite_refuses_a_stale_etag() {
    let content = "timeout 3\ndefault arch\n";
    match loader_conf_rewrite(Some(content), "windows", "stale") {
        Err(BootControlError::StateMismatch { expected, actual }) => {
            assert_eq!(expected, "stale");
            assert_eq!(actual, compute_etag_str(content));
        }
        other => panic!("expected StateMismatch, got {other:?}"),
    }
}

#[test]
fn loader_conf_rewrite_updates_the_default_under_a_fresh_etag() {
    let content = "timeout 3\ndefault arch\n";
    let t = loader_conf_rewrite(Some(content), "windows", &compute_etag_str(content)).unwrap();
    assert_eq!(t, "timeout 3\ndefault windows\n");
    assert_eq!(loader_conf_default(&t), "windows");
}

#[test]
fn loader_conf_rewrite_creates_a_missing_file_only_with_an_empty_etag() {
    assert_eq!(loader_conf_rewrite(None, "arch", "").unwrap(), "default arch\n");
    assert!(matches!(
        loader_conf_rewrite(None, "arch", "abc"),
        Err(BootControlError::StateMismatch { .. })
    ));
}
