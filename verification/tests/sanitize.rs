use bootcontrol::error::BootControlError;
use bootcontrol::sanitize::{blacklisted_patterns, check_payload, validate_kernel_param};

#[test]
fn safe_timeout_is_allowed() {
    assert!(check_payload("GRUB_TIMEOUT", "5").is_ok());
}

#[test]
fn safe_cmdline_is_allowed() {
    assert!(check_payload("GRUB_CMDLINE_LINUX_DEFAULT", "quiet splash").is_ok());
}

#[test]
fn safe_empty_value_is_allowed() {
    assert!(check_payload("GRUB_CMDLINE_LINUX_DEFAULT", "").is_ok());
}

#[test]
fn safe_distributor_is_allowed() {
    assert!(check_payload("GRUB_DISTRIBUTOR", "Ubuntu").is_ok());
}

#[test]
fn blocks_init_in_value() {
    let result = check_payload("GRUB_CMDLINE_LINUX_DEFAULT", "quiet init=/bin/sh splash");
    assert!(matches!(
        result,
        Err(BootControlError::SecurityPolicyViolation { .. })
    ));
}

#[test]
fn blocks_selinux_zero_in_value() {
    let result = check_payload("GRUB_CMDLINE_LINUX_DEFAULT", "selinux=0 quiet");
    assert!(matches!(
        result,
        Err(BootControlError::SecurityPolicyViolation { .. })
    ));
}

#[test]
fn blocks_apparmor_zero_in_value() {
    let result = check_payload("GRUB_CMDLINE_LINUX_DEFAULT", "apparmor=0");
    assert!(matches!(
        result,
        Err(BootControlError::SecurityPolicyViolation { .. })
    ));
}

#[test]
fn blocks_systemd_unit_in_value() {
    let result = check_payload("GRUB_CMDLINE_LINUX_DEFAULT", "systemd.unit=rescue.target");
    assert!(matches!(
        result,
        Err(BootControlError::SecurityPolicyViolation { .. })
    ));
}

#[test]
fn blocks_rd_break_in_value() {
    let result = check_payload("GRUB_CMDLINE_LINUX_DEFAULT", "rd.break quiet");
    assert!(matches!(
        result,
        Err(BootControlError::SecurityPolicyViolation { .. })
    ));
}

#[test]
fn blocks_single_in_value() {
    let result = check_payload("GRUB_CMDLINE_LINUX_DEFAULT", "single");
    assert!(matches!(
        result,
        Err(BootControlError::SecurityPolicyViolation { .. })
    ));
}

#[test]
fn blocks_emergency_in_value() {
    let result = check_payload("GRUB_CMDLINE_LINUX_DEFAULT", "emergency");
    assert!(matches!(
        result,
        Err(BootControlError::SecurityPolicyViolation { .. })
    ));
}

#[test]
fn blocks_selinux_zero_in_key() {
    let result = check_payload("selinux=0_key", "somevalue");
    assert!(matches!(
        result,
        Err(BootControlError::SecurityPolicyViolation { .. })
    ));
}

#[test]
fn blocks_init_embedded_in_longer_string() {
    let result = check_payload("GRUB_CMDLINE_LINUX_DEFAULT", "quiet noinit=something init=/usr/lib/systemd/systemd");
    assert!(matches!(
        result,
        Err(BootControlError::SecurityPolicyViolation { .. })
    ));
}

#[test]
fn single_not_blocked_as_prefix_of_nonisolated_word() {
    let result = check_payload("GRUB_CMDLINE_LINUX_DEFAULT", "nosingle");
    assert!(matches!(
        result,
        Err(BootControlError::SecurityPolicyViolation { .. })
    ));
}

#[test]
fn all_blacklisted_patterns_are_tested() {
    let patterns = blacklisted_patterns();
    assert!(patterns.contains(&"init="));
    assert!(patterns.contains(&"selinux=0"));
    assert!(patterns.contains(&"apparmor=0"));
    assert!(patterns.contains(&"systemd.unit="));
    assert!(patterns.contains(&"rd.break"));
    assert!(patterns.contains(&"single"));
    assert!(patterns.contains(&"emergency"));
    assert_eq!(patterns.len(), 7);
}

#[test]
fn violation_names_the_first_pattern_in_blacklist_order() {
    assert_eq!(
        check_payload("GRUB_CMDLINE_LINUX_DEFAULT", "emergency init=/bin/sh"),
        Err(BootControlError::SecurityPolicyViolation {
            reason: "blacklisted kernel parameter: init=".into()
        })
    );
}

#[test]
fn kernel_param_validation_uses_the_same_blacklist() {
    assert!(validate_kernel_param("quiet").is_ok());
    assert_eq!(
        validate_kernel_param("rd.break"),
        Err(BootControlError::SecurityPolicyViolation {
            reason: "blacklisted kernel parameter: rd.break".into()
        })
    );
}
