use bootcontrol::audit::Phase;
use bootcontrol::call_gate::{CallGate, Clearance, GateAction, GateEvent, HostPolicy};
use bootcontrol::enroll_flow::{EnrollAction, EnrollCall, EnrollEvent};
use bootcontrol::error::{BootControlError, DaemonError};
use bootcontrol::immutable_distro::ImmutableDistro;
use bootcontrol::journal::{export_file_name, export_stamp_at, journal_viewer_command, terminal_names};
use bootcontrol::nvram_flow::{BackupAction, BackupCall, BackupEvent};
use bootcontrol::polkit::actions;
use bootcontrol::etag::compute_etag_str;
use bootcontrol::restore_flow::{join_onto, RestoreAction, RestoreCall, RestoreEvent, TargetState};
use bootcontrol::snapshot::{AncestorCheck, SnapshotError};

fn admit_gate(gate: &mut CallGate, host: Option<ImmutableDistro>) -> GateAction {
    match gate.advance(GateEvent::CallerResolved(Ok(1000))) {
        GateAction::Authorize(_) => {}
        other => panic!("expected Authorize, got {other:?}"),
    }
    assert!(matches!(gate.advance(GateEvent::Authorized(Ok(()))), GateAction::ProbeHost));
    gate.advance(GateEvent::HostProbed(host))
}

#[test]
fn gate_admits_authorized_caller_on_mutable_host() {
    let (mut g, first) = CallGate::new(actions::WRITE_BOOTLOADER, HostPolicy::RequireWritable);
    assert!(matches!(first, GateAction::ResolveCaller));
    match g.advance(GateEvent::CallerResolved(Ok(42))) {
        GateAction::Authorize(a) => assert_eq!(a, actions::WRITE_BOOTLOADER),
        other => panic!("expected Authorize, got {other:?}"),
    }
    assert_eq!(g.caller_uid(), 42);
    assert!(matches!(g.advance(GateEvent::Authorized(Ok(()))), GateAction::ProbeHost));
    assert!(matches!(
        g.advance(GateEvent::HostProbed(None)),
        GateAction::Proceed(Clearance::Writable)
    ));
    assert!(g.passed());
}

#[test]
fn gate_refuses_immutable_hosts_by_policy() {
    let (mut g, _) = CallGate::new(actions::REWRITE_GRUB, HostPolicy::KernelParams);
    assert!(matches!(
        admit_gate(&mut g, Some(ImmutableDistro::RpmOstree)),
        GateAction::Proceed(Clearance::DelegateToRpmOstree)
    ));
    let (mut g, _) = CallGate::new(actions::REWRITE_GRUB, HostPolicy::KernelParams);
    match admit_gate(&mut g, Some(ImmutableDistro::Ostree)) {
        GateAction::Refuse(DaemonError::ImmutableDistroDetected(m)) => {
            assert_eq!(m, "immutable distribution detected: ostree")
        }
        other => panic!("expected refusal, got {other:?}"),
    }
    let (mut g, _) = CallGate::new(actions::WRITE_BOOTLOADER, HostPolicy::RequireWritable);
    assert!(matches!(
        admit_gate(&mut g, Some(ImmutableDistro::RpmOstree)),
        GateAction::Refuse(DaemonError::ImmutableDistroDetected(_))
    ));
    assert!(!g.passed());
}

#[test]
fn gate_refuses_denied_and_unknown_callers() {
    let (mut g, _) = CallGate::new(actions::WRITE_BOOTLOADER, HostPolicy::RequireWritable);
    assert!(matches!(
        g.advance(GateEvent::CallerResolved(Err("missing sender in D-Bus message".into()))),
        GateAction::Refuse(DaemonError::PolkitDenied(_))
    ));
    let (mut g, _) = CallGate::new(actions::WRITE_BOOTLOADER, HostPolicy::RequireWritable);
    g.advance(GateEvent::CallerResolved(Ok(1)));
    assert!(matches!(
        g.advance(GateEvent::Authorized(Err(BootControlError::PolkitDenied))),
        GateAction::Refuse(DaemonError::PolkitDenied(_))
    ));
    let (mut g, _) = CallGate::new(actions::WRITE_BOOTLOADER, HostPolicy::RequireWritable);
    assert!(matches!(
        g.advance(GateEvent::HostProbed(None)),
        GateAction::Refuse(DaemonError::Failed(_))
    ));
}

const CURRENT: &str = "GRUB_TIMEOUT=10\n";

fn started_restore(expected_etag: &str) -> RestoreCall {
    let (mut c, _) = RestoreCall::new(
        "/var/lib/bootcontrol/snapshots",
        "snap-1".into(),
        expected_etag.into(),
        "job-9".into(),
    );
    c.advance(RestoreEvent::Admission(GateEvent::CallerResolved(Ok(1000))));
    c.advance(RestoreEvent::Admission(GateEvent::Authorized(Ok(()))));
    match c.advance(RestoreEvent::Admission(GateEvent::HostProbed(None))) {
        RestoreAction::Emit(e) => {
            assert_eq!(e.phase, Phase::Started);
            assert_eq!(e.target_paths, vec!["/var/lib/bootcontrol/snapshots/snap-1".to_string()]);
            assert_eq!(e.snapshot_id.as_deref(), Some("snap-1"));
            assert_eq!(e.etag_before.as_deref(), Some(expected_etag));
            assert_eq!(e.polkit_action, actions::RESTORE_SNAPSHOT);
            assert_eq!(e.caller_uid, 1000);
        }
        other => panic!("expected Started event, got {other:?}"),
    }
    assert!(matches!(c.advance(RestoreEvent::Emitted), RestoreAction::LockTarget));
    c
}

fn admitted_restore() -> RestoreCall {
    let mut c = started_restore(&compute_etag_str(CURRENT));
    assert!(matches!(
        c.advance(RestoreEvent::TargetLocked(TargetState::Locked {
            path: "/etc/default/grub".into(),
            bytes: CURRENT.as_bytes().to_vec(),
        })),
        RestoreAction::Restore
    ));
    c
}

#[test]
fn restore_stale_etag_cannot_modify_target() {
    let mut c = started_restore("stale");
    match c.advance(RestoreEvent::TargetLocked(TargetState::Locked {
        path: "/etc/default/grub".into(),
        bytes: CURRENT.as_bytes().to_vec(),
    })) {
        RestoreAction::Emit(e) => {
            assert_eq!(e.phase, Phase::Completed);
            assert_eq!(e.exit_code, Some(1));
        }
        other => panic!("expected Completed event, got {other:?}"),
    }
    match c.advance(RestoreEvent::Emitted) {
        RestoreAction::Reply(Err(DaemonError::StateMismatch(m))) => {
            assert_eq!(m, format!("ETag mismatch: expected stale, found {}", compute_etag_str(CURRENT)))
        }
        other => panic!("expected StateMismatch, got {other:?}"),
    }
}

#[test]
fn restore_locked_target_is_unchanged() {
    let mut c = started_restore(&compute_etag_str(CURRENT));
    assert!(matches!(
        c.advance(RestoreEvent::TargetLocked(TargetState::Busy { path: "/etc/default/grub".into() })),
        RestoreAction::Emit(_)
    ));
    assert!(matches!(
        c.advance(RestoreEvent::Emitted),
        RestoreAction::Reply(Err(DaemonError::ConcurrentModification(_)))
    ));
}

#[test]
fn restore_invalid_manifest_cannot_modify_target() {
    let mut c = started_restore("e");
    assert!(matches!(
        c.advance(RestoreEvent::TargetLocked(TargetState::Failed(SnapshotError::Serde("bad json".into())))),
        RestoreAction::Emit(_)
    ));
    assert!(matches!(
        c.advance(RestoreEvent::Emitted),
        RestoreAction::Reply(Err(DaemonError::SnapshotCorrupt(_)))
    ));
}

#[test]
fn restore_valid_request_restores_and_audits() {
    let mut c = admitted_restore();
    match c.advance(RestoreEvent::Restored(Ok(()))) {
        RestoreAction::Emit(e) => {
            assert_eq!(e.phase, Phase::Completed);
            assert_eq!(e.exit_code, Some(0));
            assert_eq!(e.stderr_tail, "");
        }
        other => panic!("expected Completed event, got {other:?}"),
    }
    assert!(matches!(c.advance(RestoreEvent::Emitted), RestoreAction::Reply(Ok(()))));
}

#[test]
fn restore_unknown_id_returns_not_found() {
    let mut c = admitted_restore();
    match c.advance(RestoreEvent::Restored(Err(SnapshotError::NotFound("no-such-id".into())))) {
        RestoreAction::Emit(e) => {
            assert_eq!(e.exit_code, Some(1));
            assert_eq!(
                e.stderr_tail,
                "org.bootcontrol.Error.SnapshotNotFound: snapshot not found: no-such-id"
            );
        }
        other => panic!("expected Completed event, got {other:?}"),
    }
    assert!(matches!(
        c.advance(RestoreEvent::Emitted),
        RestoreAction::Reply(Err(DaemonError::SnapshotNotFound(_)))
    ));
}

#[test]
fn restore_denied_performs_no_io() {
    let (mut c, _) = RestoreCall::new("/s", "snap".into(), "e".into(), "j".into());
    c.advance(RestoreEvent::Admission(GateEvent::CallerResolved(Ok(7))));
    assert!(matches!(
        c.advance(RestoreEvent::Admission(GateEvent::Authorized(Err(BootControlError::PolkitDenied)))),
        RestoreAction::Reply(Err(DaemonError::PolkitDenied(_)))
    ));
    assert!(matches!(
        c.advance(RestoreEvent::Restored(Ok(()))),
        RestoreAction::Reply(Err(DaemonError::Failed(_)))
    ));
}

#[test]
fn join_onto_follows_path_join() {
    assert_eq!(join_onto("/root", "snap"), "/root/snap");
    assert_eq!(join_onto("/root/", "snap"), "/root/snap");
    assert_eq!(join_onto("/root", "/elsewhere"), "/elsewhere");
}

fn admitted_enroll() -> EnrollCall {
    let (mut c, _) = EnrollCall::new("/boot/EFI/Linux/a.efi".into(), "/k/mok.key".into(), "/k/mok.crt".into());
    c.advance(EnrollEvent::Admission(GateEvent::CallerResolved(Ok(1000))));
    c.advance(EnrollEvent::Admission(GateEvent::Authorized(Ok(()))));
    assert!(matches!(
        c.advance(EnrollEvent::Admission(GateEvent::HostProbed(None))),
        EnrollAction::CheckKeys
    ));
    c
}

#[test]
fn sign_and_enroll_runs_sign_then_enroll() {
    let mut c = admitted_enroll();
    assert_eq!(c.uki_path(), "/boot/EFI/Linux/a.efi");
    assert!(matches!(
        c.advance(EnrollEvent::KeysChecked { key_exists: true, cert_exists: true }),
        EnrollAction::Sign
    ));
    assert!(matches!(c.advance(EnrollEvent::Signed(Ok(()))), EnrollAction::Enroll));
    assert!(matches!(c.advance(EnrollEvent::Enrolled(Ok(()))), EnrollAction::Reply(Ok(()))));
}

#[test]
fn sign_and_enroll_reports_missing_key_first() {
    let mut c = admitted_enroll();
    match c.advance(EnrollEvent::KeysChecked { key_exists: false, cert_exists: false }) {
        EnrollAction::Reply(Err(DaemonError::MokKeyNotFound(m))) => {
            assert_eq!(m, "MOK key not found: /k/mok.key")
        }
        other => panic!("expected MokKeyNotFound, got {other:?}"),
    }
    let mut c = admitted_enroll();
    match c.advance(EnrollEvent::KeysChecked { key_exists: true, cert_exists: false }) {
        EnrollAction::Reply(Err(DaemonError::MokKeyNotFound(m))) => {
            assert_eq!(m, "MOK key not found: /k/mok.crt")
        }
        other => panic!("expected MokKeyNotFound, got {other:?}"),
    }
}

#[test]
fn failed_signing_requests_no_enrolment() {
    let mut c = admitted_enroll();
    c.advance(EnrollEvent::KeysChecked { key_exists: true, cert_exists: true });
    assert!(matches!(
        c.advance(EnrollEvent::Signed(Err(BootControlError::SigningFailed { reason: "x".into() }))),
        EnrollAction::Reply(Err(DaemonError::SigningFailed(_)))
    ));
}

fn admitted_backup(target: &str) -> (BackupCall, BackupAction) {
    let (mut c, _) = BackupCall::new("/var/lib/bootcontrol/certs".into(), target.into());
    c.advance(BackupEvent::Admission(GateEvent::CallerResolved(Ok(1000))));
    c.advance(BackupEvent::Admission(GateEvent::Authorized(Ok(()))));
    let a = c.advance(BackupEvent::Admission(GateEvent::HostProbed(None)));
    (c, a)
}

#[test]
fn nvram_default_backups_go_to_a_timestamped_directory() {
    let (mut c, a) = admitted_backup("");
    assert!(matches!(a, BackupAction::ReadClock));
    match c.advance(BackupEvent::ClockRead(Ok(1767225600123456789))) {
        BackupAction::CheckAncestors(t) => {
            assert_eq!(t, "/var/lib/bootcontrol/certs/backup-1767225600123456789")
        }
        other => panic!("expected CheckAncestors, got {other:?}"),
    }
    match c.advance(BackupEvent::AncestorsChecked(AncestorCheck::Clear)) {
        BackupAction::Backup(t) => {
            assert_eq!(t, "/var/lib/bootcontrol/certs/backup-1767225600123456789")
        }
        other => panic!("expected Backup, got {other:?}"),
    }
    let files = vec!["/var/lib/bootcontrol/certs/backup-1/PK-x.efivar".to_string()];
    match c.advance(BackupEvent::BackedUp(Ok(files.clone()))) {
        BackupAction::Reply(Ok(v)) => assert_eq!(v, files),
        other => panic!("expected reply, got {other:?}"),
    }
}

#[test]
fn nvram_destination_is_confined_to_managed_directory() {
    for target in ["/tmp/evil", "/var/lib/bootcontrol/certs/../x", "relative/dir", "/var/lib/bootcontrol/certs-evil"] {
        let (_, a) = admitted_backup(target);
        match a {
            BackupAction::Reply(Err(DaemonError::NvramBackupFailed(m))) => assert_eq!(
                m,
                "backup destination must be inside /var/lib/bootcontrol/certs without '..'"
            ),
            other => panic!("target {target:?} must be refused, got {other:?}"),
        }
    }
    let (_, a) = admitted_backup("/var/lib/bootcontrol/certs/mine");
    assert!(matches!(a, BackupAction::CheckAncestors(t) if t == "/var/lib/bootcontrol/certs/mine"));
}

#[test]
fn nvram_traversal_and_symlink_targets_cannot_escape_managed_root() {
    let (mut c, a) = admitted_backup("/var/lib/bootcontrol/certs/alias/nested");
    assert!(matches!(a, BackupAction::CheckAncestors(_)));
    match c.advance(BackupEvent::AncestorsChecked(AncestorCheck::Symlink)) {
        BackupAction::Reply(Err(DaemonError::NvramBackupFailed(m))) => assert_eq!(
            m,
            "backup destination must not pass through a symbolic link: /var/lib/bootcontrol/certs/alias/nested"
        ),
        other => panic!("expected refusal, got {other:?}"),
    }
    let (mut c, _) = admitted_backup("/var/lib/bootcontrol/certs/x");
    assert!(matches!(
        c.advance(BackupEvent::AncestorsChecked(AncestorCheck::Failed("permission denied".into()))),
        BackupAction::Reply(Err(DaemonError::NvramBackupFailed(m))) if m == "permission denied"
    ));
}

#[test]
fn nvram_backup_failure_is_reported() {
    let (mut c, _) = admitted_backup("/var/lib/bootcontrol/certs/x");
    c.advance(BackupEvent::AncestorsChecked(AncestorCheck::Clear));
    assert!(matches!(
        c.advance(BackupEvent::BackedUp(Err(BootControlError::NvramBackupFailed {
            reason: "no Secure Boot variables found".into()
        }))),
        BackupAction::Reply(Err(DaemonError::NvramBackupFailed(_)))
    ));
    let (mut c, _) = admitted_backup("");
    assert!(matches!(
        c.advance(BackupEvent::ClockRead(Err("clock before epoch".into()))),
        BackupAction::Reply(Err(DaemonError::NvramBackupFailed(m))) if m == "clock before epoch"
    ));
}

#[test]
fn journal_viewer_uses_first_terminal_found() {
    let mut found = vec![false; terminal_names().len()];
    assert_eq!(
        journal_viewer_command("job-1", &found),
        Err("no supported terminal emulator found on PATH".to_string())
    );
    found[3] = true;
    found[8] = true;
    let c = journal_viewer_command("job-1", &found).unwrap();
    assert_eq!(c.binary, "konsole");
    assert_eq!(
        c.args,
        vec![
            "-e",
            "journalctl",
            "-u",
            "bootcontrol-daemon.service",
            "JOB_ID=job-1",
            "--output=cat",
            "--no-pager"
        ]
    );
    let mut only_foot = vec![false; 9];
    only_foot[7] = true;
    let c = journal_viewer_command("j", &only_foot).unwrap();
    assert_eq!(c.binary, "foot");
    assert_eq!(c.args[0], "journalctl");
}

#[test]
fn export_file_name_from_stamp() {
    assert_eq!(export_stamp_at(1767225600), "ts-1767225600");
    assert_eq!(export_file_name("ts-1767225600"), "bootcontrol-logs-ts-1767225600.jsonl");
    assert_eq!(export_file_name("2026-01-01 10:00"), "bootcontrol-logs-2026-01-01-10-00.jsonl");
}

#[test]
fn nvram_default_backups_are_distinct() {
    let dir_at = |nanos: u128| {
        let (mut c, a) = admitted_backup("");
        assert!(matches!(a, BackupAction::ReadClock));
        match c.advance(BackupEvent::ClockRead(Ok(nanos))) {
            BackupAction::CheckAncestors(t) => t,
            other => panic!("expected CheckAncestors, got {other:?}"),
        }
    };
    let first = dir_at(1767225600000000001);
    let second = dir_at(1767225600000000002);
    assert_ne!(first, second);
    assert!(first.starts_with("/var/lib/bootcontrol/certs/"));
}
