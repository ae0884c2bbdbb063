use bootcontrol::error::BootControlError;
use bootcontrol::luks_keymap::{kbd_dirs, keymap_file_names, keymap_to_check, keymap_verdict};

fn validate(content: &str, installed: &[&str]) -> Result<String, BootControlError> {
    let name = keymap_to_check(content)?;
    let found = installed.contains(&name.as_str());
    keymap_verdict(name, found)
}

#[test]
fn validate_keymap_returns_name_when_ok() {
    let result = validate("KEYMAP=pl\nFONT=lat2-16\n", &["pl"]);
    assert_eq!(result.unwrap(), "pl");
}

#[test]
fn validate_keymap_rejects_unresolved_name() {
    let result = validate("KEYMAP=not-a-real-layout\n", &[]);
    assert!(matches!(
        result,
        Err(BootControlError::SecurityPolicyViolation { .. })
    ));
}

#[test]
fn validate_keymap_rejects_missing_assignment() {
    let result = validate("FONT=lat2-16\nLOCALE=pl_PL\n", &[]);
    match result {
        Err(BootControlError::SecurityPolicyViolation { reason }) => {
            assert!(reason.contains("no KEYMAP="));
        }
        other => panic!("expected SecurityPolicyViolation, got {other:?}"),
    }
}

#[test]
fn validate_keymap_rejects_shell_substitution() {
    let result = validate("KEYMAP=$(cat /etc/shadow)\n", &[]);
    match result {
        Err(BootControlError::SecurityPolicyViolation { reason }) => {
            assert!(reason.contains("not legal in a keymap name"));
        }
        other => panic!("expected SecurityPolicyViolation, got {other:?}"),
    }
}

#[test]
fn quoted_keymap_is_unquoted() {
    assert_eq!(keymap_to_check("KEYMAP=\"de-latin1\"\n").unwrap(), "de-latin1");
    assert_eq!(keymap_to_check("KEYMAP='us'\n").unwrap(), "us");
}

#[test]
fn unresolved_keymap_reason_names_the_keymap() {
    assert_eq!(
        keymap_verdict("xx".into(), false),
        Err(BootControlError::SecurityPolicyViolation {
            reason: "keymap 'xx' is not installed in any kbd keymap directory".into()
        })
    );
}

#[test]
fn keymap_files_and_directories() {
    assert_eq!(keymap_file_names("pl"), ("pl.map".to_string(), "pl.map.gz".to_string()));
    assert_eq!(kbd_dirs(Some("/a:/b")), vec!["/a".to_string(), "/b".to_string()]);
    assert_eq!(
        kbd_dirs(None),
        vec![
            "/usr/share/kbd/keymaps".to_string(),
            "/usr/lib/kbd/keymaps".to_string(),
            "/usr/share/keymaps".to_string(),
            "/lib/kbd/keymaps".to_string()
        ]
    );
    assert_eq!(kbd_dirs(Some("")).len(), 4);
}
