use bootcontrol::error::{to_daemon_error, BootControlError, DaemonError};
use bootcontrol::snapshot::{snapshot_to_daemon_error, SnapshotError};

#[test]
fn state_mismatch_maps_to_correct_variant() {
    let e = BootControlError::StateMismatch { expected: "aabb".into(), actual: "ccdd".into() };
    assert!(matches!(to_daemon_error(e), DaemonError::StateMismatch(_)));
}

#[test]
fn key_not_found_maps_to_correct_variant() {
    let e = BootControlError::KeyNotFound { key: "X".into() };
    assert!(matches!(to_daemon_error(e), DaemonError::KeyNotFound(_)));
}

#[test]
fn malformed_value_maps_to_correct_variant() {
    let e = BootControlError::MalformedValue { key: "X".into(), reason: "r".into() };
    assert!(matches!(to_daemon_error(e), DaemonError::MalformedValue(_)));
}

#[test]
fn complex_bash_detected_maps_to_correct_variant() {
    let e = BootControlError::ComplexBashDetected { offender: "sub".into() };
    assert!(matches!(to_daemon_error(e), DaemonError::ComplexBashDetected(_)));
}

#[test]
fn polkit_denied_maps_to_correct_variant() {
    let e = BootControlError::PolkitDenied;
    assert!(matches!(to_daemon_error(e), DaemonError::PolkitDenied(_)));
}

#[test]
fn esp_scan_failed_maps_to_correct_variant() {
    let e = BootControlError::EspScanFailed { reason: "io".into() };
    assert!(matches!(to_daemon_error(e), DaemonError::EspScanFailed(_)));
}

#[test]
fn security_policy_violation_maps_to_correct_variant() {
    let e = BootControlError::SecurityPolicyViolation { reason: "init=".into() };
    assert!(matches!(to_daemon_error(e), DaemonError::SecurityPolicyViolation(_)));
}

#[test]
fn concurrent_modification_maps_to_correct_variant() {
    let e = BootControlError::ConcurrentModification { path: "/etc/default/grub".into() };
    assert!(matches!(to_daemon_error(e), DaemonError::ConcurrentModification(_)));
}

#[test]
fn tool_not_found_maps_to_correct_variant() {
    let e = BootControlError::ToolNotFound { tool: "sbsign".into() };
    assert!(matches!(to_daemon_error(e), DaemonError::ToolNotFound(_)));
}

#[test]
fn nvram_backup_failed_maps_to_correct_variant() {
    let e = BootControlError::NvramBackupFailed { reason: "no variables".into() };
    assert!(matches!(to_daemon_error(e), DaemonError::NvramBackupFailed(_)));
}

#[test]
fn mok_key_not_found_maps_to_correct_variant() {
    let e = BootControlError::MokKeyNotFound { path: "/var/lib/bootcontrol/keys/mok.key".into() };
    assert!(matches!(to_daemon_error(e), DaemonError::MokKeyNotFound(_)));
}

#[test]
fn signing_failed_maps_to_correct_variant() {
    let e = BootControlError::SigningFailed { reason: "sbsign exited 1".into() };
    assert!(matches!(to_daemon_error(e), DaemonError::SigningFailed(_)));
}

#[test]
fn key_generation_failed_maps_to_correct_variant() {
    let e = BootControlError::KeyGenerationFailed { reason: "openssl failed".into() };
    assert!(matches!(to_daemon_error(e), DaemonError::KeyGenerationFailed(_)));
}

#[test]
fn nvram_write_failed_maps_to_correct_variant() {
    let e = BootControlError::NvramWriteFailed { reason: "efivar error".into() };
    assert!(matches!(to_daemon_error(e), DaemonError::NvramWriteFailed(_)));
}

#[test]
fn snapshot_not_found_maps_to_correct_variant() {
    let e = SnapshotError::NotFound("2026-04-30T130211Z-test_op".into());
    assert!(matches!(
        snapshot_to_daemon_error(e),
        DaemonError::SnapshotNotFound(_)
    ));
}

#[test]
fn snapshot_schema_upgrade_maps_to_corrupt() {
    let e = SnapshotError::SchemaUpgradeRequired(42);
    assert!(matches!(
        snapshot_to_daemon_error(e),
        DaemonError::SnapshotCorrupt(_)
    ));
}

#[test]
fn snapshot_io_maps_to_failed() {
    let e = SnapshotError::Io("disk full".into());
    let mapped = snapshot_to_daemon_error(e);
    assert!(matches!(mapped, DaemonError::SnapshotFailed(_)));
}

#[test]
fn snapshot_serde_maps_to_corrupt() {
    let bad = serde_json::from_str::<serde_json::Value>("not json")
        .err()
        .unwrap()
        .to_string();
    let e = SnapshotError::Serde(bad);
    assert!(matches!(
        snapshot_to_daemon_error(e),
        DaemonError::SnapshotCorrupt(_)
    ));
}

#[test]
fn daemon_error_message_contains_original_description() {
    let e = BootControlError::StateMismatch {
        expected: "aabb".into(),
        actual: "ccdd".into(),
    };
    let original_msg = e.message();
    let daemon_err = to_daemon_error(BootControlError::StateMismatch {
        expected: "aabb".into(),
        actual: "ccdd".into(),
    });
    let DaemonError::StateMismatch(msg) = daemon_err else {
        panic!("wrong variant");
    };
    assert_eq!(msg, original_msg);
}

#[test]
fn all_known_variants_produce_non_failed_daemon_error() {
    let cases: Vec<(&str, DaemonError)> = vec![
        ("StateMismatch", to_daemon_error(BootControlError::StateMismatch { expected: "aabb".into(), actual: "ccdd".into() })),
        ("KeyNotFound", to_daemon_error(BootControlError::KeyNotFound { key: "X".into() })),
        ("MalformedValue", to_daemon_error(BootControlError::MalformedValue { key: "X".into(), reason: "r".into() })),
        ("ComplexBashDetected", to_daemon_error(BootControlError::ComplexBashDetected { offender: "sub".into() })),
        ("PolkitDenied", to_daemon_error(BootControlError::PolkitDenied)),
        ("EspScanFailed", to_daemon_error(BootControlError::EspScanFailed { reason: "io".into() })),
        ("SecurityPolicyViolation", to_daemon_error(BootControlError::SecurityPolicyViolation { reason: "init=".into() })),
        ("ConcurrentModification", to_daemon_error(BootControlError::ConcurrentModification { path: "/etc/default/grub".into() })),
        ("ToolNotFound", to_daemon_error(BootControlError::ToolNotFound { tool: "sbsign".into() })),
        ("NvramBackupFailed", to_daemon_error(BootControlError::NvramBackupFailed { reason: "no variables".into() })),
        ("MokKeyNotFound", to_daemon_error(BootControlError::MokKeyNotFound { path: "/var/lib/bootcontrol/keys/mok.key".into() })),
        ("SigningFailed", to_daemon_error(BootControlError::SigningFailed { reason: "sbsign exited 1".into() })),
        ("KeyGenerationFailed", to_daemon_error(BootControlError::KeyGenerationFailed { reason: "openssl failed".into() })),
        ("NvramWriteFailed", to_daemon_error(BootControlError::NvramWriteFailed { reason: "efivar error".into() })),
        ("ImmutableDistroDetected", to_daemon_error(BootControlError::ImmutableDistroDetected { distro: "nixos".into() })),
    ];
    for (name, err) in cases {
        assert!(
            !matches!(err, DaemonError::Failed(_)),
            "variant {name} mapped to DaemonError::Failed"
        );
    }
}

#[test]
fn state_mismatch_message_names_both_etags() {
    let e = BootControlError::StateMismatch {
        expected: "aabb".into(),
        actual: "ccdd".into(),
    };
    assert_eq!(e.message(), "ETag mismatch: expected aabb, found ccdd");
}

#[test]
fn daemon_error_text_carries_the_dbus_error_name() {
    let d = to_daemon_error(BootControlError::KeyNotFound { key: "GRUB_X".into() });
    assert_eq!(d.text(), "org.bootcontrol.Error.KeyNotFound: key not found: GRUB_X");
}

#[test]
fn immutable_distro_error_keeps_its_description() {
    let d = to_daemon_error(BootControlError::ImmutableDistroDetected { distro: "nixos".into() });
    let text = d.text();
    assert!(text.contains("immutable distribution detected: nixos"));
}

#[test]
fn immutable_host_has_its_own_error_name() {
    let d = to_daemon_error(BootControlError::ImmutableDistroDetected { distro: "nixos".into() });
    assert!(matches!(d, DaemonError::ImmutableDistroDetected(_)));
    assert!(d.text().starts_with("org.bootcontrol.Error.ImmutableDistroDetected: "));
}
