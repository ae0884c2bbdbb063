use bootcontrol::error::BootControlError;
use bootcontrol::etag::compute_etag_str;
use bootcontrol::prober::{build_backend, detect_bootloader, DetectedBootloader};
use bootcontrol::rpm_ostree::{
    etag_check, kargs_change_command, kargs_change_outcome, kargs_from_output,
    kargs_read_command, KargsAction, KargsCall, KargsChange, KargsEvent, OutputRun,
};

fn ran(stdout: &str) -> OutputRun {
    OutputRun::Exited { success: true, stdout: stdout.into(), stderr: String::new() }
}

#[test]
fn build_backend_grub_returns_grub_name() {
    let backend = build_backend(DetectedBootloader::Grub);
    assert_eq!(backend.name(), "grub");
}

#[test]
fn build_backend_systemd_boot_returns_systemd_boot_name() {
    let backend = build_backend(DetectedBootloader::SystemdBoot);
    assert_eq!(backend.name(), "systemd-boot");
}

#[test]
fn build_backend_unknown_falls_back_to_grub() {
    let backend = build_backend(DetectedBootloader::Unknown);
    assert_eq!(backend.name(), "grub");
}

#[test]
fn detect_bootloader_prefers_systemd_boot() {
    assert_eq!(detect_bootloader(true, false, true), DetectedBootloader::SystemdBoot);
    assert_eq!(detect_bootloader(false, true, false), DetectedBootloader::SystemdBoot);
    assert_eq!(detect_bootloader(false, false, true), DetectedBootloader::Grub);
    assert_eq!(detect_bootloader(false, false, false), DetectedBootloader::Unknown);
}

#[test]
fn kargs_read_parses_output_and_computes_etag() {
    let out = "root=UUID=1234 quiet splash\n";
    let (params, etag) = kargs_from_output(ran(out)).expect("kargs_read should succeed");
    assert_eq!(params, vec!["root=UUID=1234", "quiet", "splash"]);
    assert_eq!(etag.len(), 64);
    assert!(etag.chars().all(|c| c.is_ascii_hexdigit()));
    assert_eq!(etag, compute_etag_str(out));
}

#[test]
fn kargs_append_passes_through_etag_check() {
    let (_, etag) = kargs_from_output(ran("quiet splash\n")).unwrap();
    assert!(etag_check(&etag, &etag).is_ok());
    let cmd = kargs_change_command(KargsChange::Append, "debug");
    assert_eq!(cmd.binary, "rpm-ostree");
    assert_eq!(cmd.args, vec!["kargs".to_string(), "--append=debug".to_string()]);
    assert!(kargs_change_outcome(KargsChange::Append, "debug", ran("")).is_ok());
}

#[test]
fn kargs_append_rejects_stale_etag() {
    let (_, etag) = kargs_from_output(ran("quiet splash\n")).unwrap();
    let result = etag_check("deadbeefdeadbeefdeadbeefdeadbeef", &etag);
    assert!(matches!(
        result,
        Err(BootControlError::StateMismatch { .. })
    ));
}

#[test]
fn kargs_delete_surfaces_rpm_ostree_failure() {
    let run = OutputRun::Exited {
        success: false,
        stdout: String::new(),
        stderr: "kernel argument not found".into(),
    };
    match kargs_change_outcome(KargsChange::Delete, "notpresent", run) {
        Err(BootControlError::EspScanFailed { reason }) => {
            assert!(reason.contains("kernel argument not found"), "{reason}");
            assert_eq!(
                reason,
                "`rpm-ostree kargs --delete=notpresent` failed: kernel argument not found"
            );
        }
        other => panic!("expected EspScanFailed, got {other:?}"),
    }
}

#[test]
fn kargs_read_reports_tool_not_found_when_binary_missing() {
    let result = kargs_from_output(OutputRun::SpawnFailed("No such file or directory".into()));
    assert!(matches!(result, Err(BootControlError::ToolNotFound { .. })));
}

#[test]
fn kargs_read_command_is_plain_kargs() {
    let c = kargs_read_command();
    assert_eq!(c.binary, "rpm-ostree");
    assert_eq!(c.args, vec!["kargs".to_string()]);
}

#[test]
fn kargs_read_failure_carries_stderr() {
    let run = OutputRun::Exited { success: false, stdout: String::new(), stderr: "denied".into() };
    assert_eq!(
        kargs_from_output(run),
        Err(BootControlError::EspScanFailed { reason: "`rpm-ostree kargs` failed: denied".into() })
    );
}

#[test]
fn kargs_call_refuses_a_blacklisted_append_before_any_run() {
    let (_, first) = KargsCall::new(KargsChange::Append, "init=/bin/sh".into(), String::new());
    assert!(matches!(first, KargsAction::Reply(Err(BootControlError::SecurityPolicyViolation { .. }))));
}

#[test]
fn kargs_call_refuses_a_stale_etag_and_changes_nothing() {
    let (mut call, first) = KargsCall::new(KargsChange::Append, "quiet".into(), "stale".into());
    match first {
        KargsAction::RunRead(cmd) => {
            assert_eq!(cmd.binary, "rpm-ostree");
            assert_eq!(cmd.args, vec!["kargs"]);
        }
        other => panic!("expected the read, got {other:?}"),
    }
    let out = "root=UUID=abc rw\n";
    match call.advance(KargsEvent::ReadDone(ran(out))) {
        KargsAction::Reply(Err(BootControlError::StateMismatch { expected, actual })) => {
            assert_eq!(expected, "stale");
            assert_eq!(actual, compute_etag_str(out));
        }
        other => panic!("expected StateMismatch, got {other:?}"),
    }
}

#[test]
fn kargs_call_runs_the_change_after_a_fresh_read() {
    let out = "root=UUID=abc rw\n";
    let (mut call, _) = KargsCall::new(KargsChange::Delete, "quiet".into(), compute_etag_str(out));
    match call.advance(KargsEvent::ReadDone(ran(out))) {
        KargsAction::Run(cmd) => {
            assert_eq!(cmd.binary, "rpm-ostree");
            assert_eq!(cmd.args, vec!["kargs", "--delete=quiet"]);
        }
        other => panic!("expected the change, got {other:?}"),
    }
    assert!(matches!(call.advance(KargsEvent::ChangeDone(ran(""))), KargsAction::Reply(Ok(()))));
}

#[test]
fn kargs_call_reports_a_failed_change() {
    let out = "rw\n";
    let (mut call, _) = KargsCall::new(KargsChange::Append, "quiet".into(), compute_etag_str(out));
    assert!(matches!(call.advance(KargsEvent::ReadDone(ran(out))), KargsAction::Run(_)));
    let failed = OutputRun::Exited { success: false, stdout: String::new(), stderr: "denied".into() };
    match call.advance(KargsEvent::ChangeDone(failed)) {
        KargsAction::Reply(Err(BootControlError::EspScanFailed { reason })) => {
            assert_eq!(reason, "`rpm-ostree kargs --append=quiet` failed: denied")
        }
        other => panic!("expected EspScanFailed, got {other:?}"),
    }
}

#[test]
fn kargs_call_passes_on_a_failed_read() {
    let (mut call, _) = KargsCall::new(KargsChange::Delete, "quiet".into(), String::new());
    match call.advance(KargsEvent::ReadDone(OutputRun::SpawnFailed("not found".into()))) {
        KargsAction::Reply(Err(BootControlError::ToolNotFound { tool })) => {
            assert_eq!(tool, "rpm-ostree (spawn failed: not found)")
        }
        other => panic!("expected ToolNotFound, got {other:?}"),
    }
}
