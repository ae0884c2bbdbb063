use bootcontrol::confirmation::restore_preview;
use bootcontrol::demo::{demo_log_rows, demo_overview, demo_snapshot_rows};
use bootcontrol::gui_events::{
    audit_log_feedback, backend_error_message, backup_feedback, confirmed_message, copy_command_feedback,
    copy_log_row_feedback, enroll_feedback, fetch_entries_messages, initial_messages, is_accesskit_zbus_panic,
    load_failure_toast, loading_message, onboarding_marker_path, open_confirmation_message, rebuild_feedback,
    rebuild_refused_toast, reduced_motion, restore_feedback, save_feedback, save_logs_feedback,
    selection_index, show_onboarding, snapshots_failure_toast, start_tab, LogFilters, Toast, ToastKind,
    UiMessage,
};
use bootcontrol::view_model::ViewModel;

fn toast(message: &str, kind: ToastKind) -> Toast {
    Toast { message: message.to_string(), kind }
}

#[test]
fn confirmation_routing_by_verb() {
    assert_eq!(open_confirmation_message("rewrite-grub"), Some(UiMessage::PrepareRebuildConfirmation));
    assert_eq!(open_confirmation_message("restore"), None);
    assert_eq!(confirmed_message("Rewrite GRUB", ""), Some(UiMessage::RebuildGrub));
    assert_eq!(
        confirmed_message("Restore Snapshot", "snap-1"),
        Some(UiMessage::RestoreSnapshot("snap-1".to_string()))
    );
    assert_eq!(confirmed_message("Delete", "snap-1"), None);
}

#[test]
fn restore_sheet_requires_typing_restore() {
    let p = restore_preview("snap-1");
    assert_eq!(p.verb_label, "Restore Snapshot");
    assert_eq!(p.target, "Will overwrite every file captured in snapshot snap-1.");
    assert_eq!(p.required_text, "restore");
    assert_eq!(p.command_cli, "bootcontrol snapshot restore snap-1 <current-etag>");
    assert_eq!(p.snapshot_id, "snap-1");
    assert!(p.diff.is_empty());
    assert!(p.preflight.is_empty());
    assert!(p.can_confirm);
}

#[test]
fn messages_sent_together() {
    assert_eq!(fetch_entries_messages(), vec![UiMessage::FetchEntries, UiMessage::FetchGrubMenu]);
    assert_eq!(
        initial_messages(),
        vec![UiMessage::FetchEntries, UiMessage::FetchGrubMenu, UiMessage::FetchSnapshots]
    );
    assert_eq!(selection_index(3), Some(3));
    assert_eq!(selection_index(-1), None);
}

#[test]
fn loading_texts() {
    assert_eq!(
        loading_message(&UiMessage::SaveEntry("GRUB_TIMEOUT".into(), "5".into())),
        Some("Saving 'GRUB_TIMEOUT'...".to_string())
    );
    assert_eq!(loading_message(&UiMessage::RebuildGrub), Some("Rebuilding GRUB config...".to_string()));
    assert_eq!(loading_message(&UiMessage::BackupNvram), Some("Backing up EFI variables...".to_string()));
    assert_eq!(
        loading_message(&UiMessage::EnrollMok),
        Some("Signing UKI and enrolling MOK key...".to_string())
    );
    assert_eq!(
        loading_message(&UiMessage::RestoreSnapshot("s1".into())),
        Some("Restoring snapshot s1...".to_string())
    );
    assert_eq!(loading_message(&UiMessage::FetchEntries), None);
}

#[test]
fn save_feedback_reloads_either_way() {
    let (t, next) = save_feedback("GRUB_TIMEOUT", &Ok(()));
    assert_eq!(t, toast("Saved 'GRUB_TIMEOUT' successfully", ToastKind::Success));
    assert_eq!(next, vec![UiMessage::FetchEntries]);
    let (t, next) = save_feedback("K", &Err("org.freedesktop.DBus.Error.AccessDenied: no".into()));
    assert_eq!(t, toast("Access Denied. You need to authenticate via Polkit.", ToastKind::Error));
    assert_eq!(next, vec![UiMessage::FetchEntries]);
    let (t, _) = save_feedback("K", &Err("StateMismatch: stale".into()));
    assert_eq!(t, toast("Failed to save: StateMismatch: stale", ToastKind::Error));
}

#[test]
fn operation_toasts() {
    assert_eq!(load_failure_toast("boom"), toast("Failed to read GRUB config: boom", ToastKind::Error));
    assert_eq!(
        rebuild_refused_toast(),
        toast("Rebuild requires a current, successful confirmation preview.", ToastKind::Error)
    );
    assert_eq!(rebuild_feedback(&Ok(())), toast("GRUB config rebuilt successfully", ToastKind::Success));
    assert_eq!(rebuild_feedback(&Err("x".into())), toast("Rebuild failed: x", ToastKind::Error));
    assert_eq!(
        enroll_feedback(&Ok(())),
        toast("MOK enrolled. Reboot to complete enrollment.", ToastKind::Success)
    );
    assert_eq!(enroll_feedback(&Err("x".into())), toast("MOK enrollment failed: x", ToastKind::Error));
    assert_eq!(snapshots_failure_toast("x"), toast("Failed to list snapshots: x", ToastKind::Error));
    assert_eq!(ToastKind::Success.label(), "success");
    assert_eq!(ToastKind::Error.label(), "error");
}

#[test]
fn backup_toast_counts_backed_up_files() {
    let reply = r#"["/var/lib/bootcontrol/certs/backup-1/PK-8be4.efivar","/var/lib/bootcontrol/certs/backup-1/KEK-8be4.efivar","/x/db.auth"]"#;
    let expected = reply.matches(".efi").count() + reply.matches(".auth").count() + reply.matches(".bin").count();
    assert_eq!(expected, 3);
    assert_eq!(
        backup_feedback(&Ok(reply.to_string())),
        toast("Backup complete: 3 file(s) saved to /var/lib/bootcontrol/certs/", ToastKind::Success)
    );
    assert_eq!(
        backup_feedback(&Ok("[]".to_string())),
        toast("Backup complete. Files saved to /var/lib/bootcontrol/certs/", ToastKind::Success)
    );
    assert_eq!(backup_feedback(&Err("x".into())), toast("Backup failed: x", ToastKind::Error));
}

#[test]
fn restore_feedback_reloads_on_success_only() {
    let (t, next) = restore_feedback("s1", &Ok(()));
    assert_eq!(t, toast("Snapshot s1 restored", ToastKind::Success));
    assert_eq!(next, vec![UiMessage::FetchEntries, UiMessage::FetchSnapshots]);
    let (t, next) = restore_feedback("s1", &Err("x".into()));
    assert_eq!(t, toast("Restore failed: x", ToastKind::Error));
    assert!(next.is_empty());
}

#[test]
fn clipboard_log_and_export_toasts() {
    assert_eq!(
        audit_log_feedback("job-1", &Ok("kitty".into())),
        toast("Opened audit log for JOB_ID=job-1 in kitty", ToastKind::Success)
    );
    assert_eq!(
        audit_log_feedback("job-1", &Err("no terminal".into())),
        toast("Cannot open audit log: no terminal. Run: journalctl JOB_ID=job-1", ToastKind::Error)
    );
    assert_eq!(copy_command_feedback(&Ok(())), toast("Copied command to clipboard", ToastKind::Success));
    assert_eq!(copy_command_feedback(&Err("x".into())), toast("Copy failed: x", ToastKind::Error));
    assert_eq!(copy_log_row_feedback("job-1", &Ok(())), toast("Copied JOB_ID job-1", ToastKind::Success));
    assert_eq!(copy_log_row_feedback("job-1", &Err("x".into())), toast("Copy failed: x", ToastKind::Error));
    assert_eq!(
        save_logs_feedback(12, &Ok(Some("/tmp/l.jsonl".into()))),
        Some(toast("Saved 12 rows to /tmp/l.jsonl", ToastKind::Success))
    );
    assert_eq!(save_logs_feedback(12, &Ok(None)), None);
    assert_eq!(save_logs_feedback(0, &Err("x".into())), Some(toast("Save failed: x", ToastKind::Error)));
    assert_eq!(backend_error_message("no bus"), "Cannot connect to BootControl daemon: no bus");
}

#[test]
fn log_filters_toggle() {
    let mut f = LogFilters { only_failures: false, only_mine: false, time_window: "all".into() };
    f.toggle("only-failures");
    assert!(f.only_failures);
    f.toggle("only-mine");
    assert!(f.only_mine);
    f.toggle("24h");
    assert_eq!(f.time_window, "24h");
    f.toggle("24h");
    assert_eq!(f.time_window, "all");
    let before = f.clone();
    f.toggle("weekly");
    assert_eq!(f, before);
}

#[test]
fn start_tab_is_clamped_and_demo_only() {
    assert_eq!(start_tab(true, Some("3")), Some(3));
    assert_eq!(start_tab(true, Some("42")), Some(6));
    assert_eq!(start_tab(true, Some("-5")), Some(0));
    assert_eq!(start_tab(true, Some("+2")), Some(2));
    assert_eq!(start_tab(true, Some("two")), None);
    assert_eq!(start_tab(true, Some("99999999999")), None);
    assert_eq!(start_tab(true, None), None);
    assert_eq!(start_tab(false, Some("3")), None);
}

#[test]
fn motion_onboarding_and_panic_filter() {
    assert!(reduced_motion(Some("1"), false));
    assert!(!reduced_motion(Some("true"), false));
    assert!(reduced_motion(None, true));
    assert!(!reduced_motion(None, false));
    assert_eq!(
        onboarding_marker_path(Some("/home/u")),
        Some("/home/u/.config/bootcontrol/onboarded".to_string())
    );
    assert_eq!(onboarding_marker_path(None), None);
    assert!(show_onboarding(Some(false)));
    assert!(!show_onboarding(Some(true)));
    assert!(!show_onboarding(None));
    assert!(is_accesskit_zbus_panic(
        "there is no reactor running, must be called from the context of a Tokio 1.x runtime",
        Some("/root/.cargo/registry/src/zbus-4.4.0/src/connection/builder.rs")
    ));
    assert!(!is_accesskit_zbus_panic("there is no reactor running", Some("src/main.rs")));
    assert!(!is_accesskit_zbus_panic("index out of bounds", Some("zbus-4.4.0/src/x.rs")));
    assert!(!is_accesskit_zbus_panic("there is no reactor running", None));
}

#[test]
fn configuration_rows_are_sorted_and_unmodified() {
    let mut vm = ViewModel::new();
    vm.finish_load_grub(
        "grub".into(),
        vec![
            ("GRUB_TIMEOUT".into(), "5".into()),
            ("GRUB_DEFAULT".into(), "0".into()),
            ("GRUB_CMDLINE_LINUX".into(), "quiet".into()),
        ],
        "e".into(),
    );
    let rows = vm.entry_rows();
    let keys: Vec<&str> = rows.iter().map(|r| r.key.as_str()).collect();
    assert_eq!(keys, vec!["GRUB_CMDLINE_LINUX", "GRUB_DEFAULT", "GRUB_TIMEOUT"]);
    assert!(rows.iter().all(|r| r.original_value == r.value && !r.is_modified));
    assert_eq!(rows[1].value, "0");
}

#[test]
fn demo_content_is_newest_first_with_one_failure() {
    let o = demo_overview();
    assert_eq!(o.default_entry, "Linux Mint 21.3");
    assert_eq!(o.grub_timeout, 5);
    assert_eq!(o.snapshot_count, 7);
    assert_eq!(o.snapshots_disk_usage, "48 MB");
    let snaps = demo_snapshot_rows();
    assert_eq!(snaps.len(), 3);
    assert_eq!(snaps[0].id, "ts-1735603331-rewrite-grub");
    assert!(snaps.windows(2).all(|w| w[0].ts > w[1].ts));
    let logs = demo_log_rows();
    assert_eq!(logs.len(), 5);
    assert!(logs.windows(2).all(|w| w[0].ts > w[1].ts));
    assert_eq!(logs.iter().filter(|r| r.exit_code != 0).count(), 1);
    assert_eq!(logs[4].stderr_tail, "ETag mismatch: caller stale");
}
