use bootcontrol::error::BootControlError;
use bootcontrol::policy_check::{required_actions, validate_policy_content, PolicyError};
use bootcontrol::polkit::actions;
use bootcontrol::polkit::{check_action, known_actions};

fn full_policy() -> String {
    required_actions()
        .iter()
        .map(|a| format!(r#"<action id="{a}"></action>"#))
        .collect::<Vec<_>>()
        .join("\n")
}

#[test]
fn complete_policy_passes() {
    assert!(validate_policy_content(&full_policy()).is_ok());
}

#[test]
fn legacy_manage_only_is_rejected() {
    let legacy = r#"<action id="org.bootcontrol.manage">desc</action>"#;
    assert_eq!(
        validate_policy_content(legacy),
        Err(PolicyError::LegacyManageOnly)
    );
}

#[test]
fn partial_policy_of_three_actions_lists_the_fourth_as_missing() {
    let req = required_actions();
    let partial = format!(
        r#"<action id="{}"></action>
        <action id="{}"></action>
        <action id="{}"></action>"#,
        req[0], req[1], req[2]
    );
    match validate_policy_content(&partial) {
        Err(PolicyError::IncompleteActions { present, missing }) => {
            assert_eq!(present.len(), 3);
            assert_eq!(missing.len(), 1);
            assert!(missing.contains(&req[3].to_string()));
            assert_eq!(present, vec![req[0].to_string(), req[1].to_string(), req[2].to_string()]);
        }
        other => panic!("expected IncompleteActions, got {other:?}"),
    }
}

#[test]
fn policy_with_extra_actions_still_passes() {
    let mut policy = full_policy();
    policy.push_str(r#"<action id="org.bootcontrol.future-action"></action>"#);
    assert!(validate_policy_content(&policy).is_ok());
}

#[test]
fn legacy_manage_with_some_new_actions_is_incomplete_not_legacy() {
    let req = required_actions();
    let content = format!(
        r#"<action id="org.bootcontrol.manage"></action><action id="{}"></action>"#,
        req[0]
    );
    assert!(matches!(
        validate_policy_content(&content),
        Err(PolicyError::IncompleteActions { .. })
    ));
}

#[test]
fn empty_policy_lists_every_action_missing() {
    match validate_policy_content("") {
        Err(PolicyError::IncompleteActions { present, missing }) => {
            assert!(present.is_empty());
            assert_eq!(missing, required_actions().iter().map(|a| a.to_string()).collect::<Vec<_>>());
        }
        other => panic!("expected IncompleteActions, got {other:?}"),
    }
}

#[test]
fn known_actions_match_required_policy_actions() {
    let mut known: Vec<&str> = known_actions();
    let mut required: Vec<&str> = required_actions();
    known.sort_unstable();
    required.sort_unstable();
    assert_eq!(known, required);
}

#[test]
fn mock_grants_known_action_for_any_uid() {
    for action in [
        actions::REWRITE_GRUB,
        actions::WRITE_BOOTLOADER,
        actions::ENROLL_MOK,
        actions::RESTORE_SNAPSHOT,
    ] {
        assert!(check_action(action).is_ok());
    }
}

#[test]
fn mock_rejects_reserved_paranoia_actions() {
    for action in ["org.bootcontrol.generate-keys", "org.bootcontrol.replace-pk"] {
        assert_eq!(check_action(action), Err(BootControlError::PolkitDenied));
    }
}

#[test]
fn mock_rejects_legacy_manage_action() {
    assert!(check_action("org.bootcontrol.manage").is_err());
}

#[test]
fn mock_rejects_typo_action() {
    assert!(check_action("org.bootcontrol.rewrite_grub").is_err());
}

#[test]
fn policy_error_messages() {
    assert_eq!(
        PolicyError::Missing("/x.policy: No such file or directory (os error 2)".into()).message(),
        "polkit policy file unreadable: /x.policy: No such file or directory (os error 2)"
    );
    assert_eq!(
        PolicyError::LegacyManageOnly.message(),
        "polkit policy file declares only the deprecated 'org.bootcontrol.manage' action. Daemon requires the six per-intent actions declared in packaging/polkit/org.bootcontrol.policy. Refusing to start — fix the packaging or re-install."
    );
    let present = vec![actions::REWRITE_GRUB.to_string(), actions::ENROLL_MOK.to_string()];
    let missing = vec![actions::WRITE_BOOTLOADER.to_string(), actions::RESTORE_SNAPSHOT.to_string()];
    let expected = format!(
        "polkit policy file is missing required actions: {missing:?} (present: {present:?}). Refusing to start."
    );
    assert_eq!(PolicyError::IncompleteActions { present, missing }.message(), expected);
    assert_eq!(
        PolicyError::IncompleteActions { present: Vec::new(), missing: vec!["a".into()] }.message(),
        "polkit policy file is missing required actions: [\"a\"] (present: []). Refusing to start."
    );
}
