use bootcontrol::audit::Phase;
use bootcontrol::error::{BootControlError, DaemonError};
use bootcontrol::immutable_distro::ImmutableDistro;
use bootcontrol::polkit::actions;
use bootcontrol::systemd_boot::EntryRecord;
use bootcontrol::view_model::{
    BackendCall, EditRoute, LoadAction, LoadCall, LoadEvent, LoadSource, ViewLoad, ViewModel, NOT_READY_MESSAGE,
};
use bootcontrol::write_flow::{GrubValueWrite, WriteAction, WriteEvent};

fn linux_entry() -> EntryRecord {
    EntryRecord {
        id: "linux".into(),
        title: Some("Linux".into()),
        linux: Some("/vmlinuz".into()),
        initrd: None,
        options: None,
        machine_id: None,
        etag: "entry-etag".into(),
        is_default: true,
    }
}

/// A scripted daemon for loads: the backend name, whether the name probe
/// or the `loader.conf` ETag read fails, and each backend's data.
struct Daemon {
    backend: &'static str,
    fail_probe: bool,
    fail_etag: bool,
}

impl Daemon {
    fn answer(&self, call: LoadCall) -> LoadEvent {
        match call {
            LoadCall::GetActiveBackend => LoadEvent::ActiveBackend(if self.fail_probe {
                Err("backend probe failed".into())
            } else {
                Ok(self.backend.into())
            }),
            LoadCall::ListLoaderEntries => LoadEvent::LoaderEntries(Ok(vec![linux_entry()])),
            LoadCall::GetLoaderConfEtag => LoadEvent::LoaderConfEtag(if self.fail_etag {
                Err("loader ETag failed".into())
            } else {
                Ok("loader-etag".into())
            }),
            LoadCall::ReadKernelCmdline => LoadEvent::KernelCmdline(Ok((vec!["quiet".into()], "cmdline-etag".into()))),
            LoadCall::ReadConfig => {
                LoadEvent::GrubConfig(Ok((vec![("GRUB_TIMEOUT".into(), "5".into())], "grub-etag".into())))
            }
        }
    }

    /// Run one load of `vm` against this daemon.
    fn load(&self, vm: &mut ViewModel) -> Result<(), String> {
        let (mut load, mut next) = ViewLoad::start(vm);
        loop {
            next = match next {
                LoadAction::Read(call) => load.advance(vm, self.answer(call)),
                LoadAction::Done(r) => return r,
            };
        }
    }
}

#[test]
fn backend_probe_failure_is_propagated_without_selecting_grub() {
    let mut vm = ViewModel::new();
    let daemon = Daemon { backend: "grub", fail_probe: true, fail_etag: false };
    let error = daemon.load(&mut vm).unwrap_err();
    assert!(error.contains("backend probe failed"));
    assert!(vm.active_backend().is_empty());
    assert!(vm.entries().is_empty());
    assert!(vm.etag().is_empty());
}

#[test]
fn loader_etag_failure_clears_a_previously_loaded_writable_state() {
    let mut vm = ViewModel::new();
    Daemon { backend: "grub", fail_probe: false, fail_etag: false }.load(&mut vm).unwrap();
    assert_eq!(vm.etag(), "grub-etag");
    assert!(vm.require_loaded_state().is_ok());

    let error = Daemon { backend: "systemd-boot", fail_probe: false, fail_etag: true }.load(&mut vm).unwrap_err();
    assert!(error.contains("loader ETag failed"));
    assert!(vm.active_backend().is_empty());
    assert!(vm.entries().is_empty());
    assert!(vm.loader_entries().is_empty());
    assert!(vm.etag().is_empty());

    // The write is refused before any daemon call is made.
    let write_error = vm.commit_edit("GRUB_TIMEOUT", "10").unwrap_err();
    assert!(write_error.contains("not ready"));
    assert_eq!(write_error, NOT_READY_MESSAGE);
}

#[test]
fn successful_backend_switch_replaces_all_backend_specific_state() {
    let mut vm = ViewModel::new();
    Daemon { backend: "systemd-boot", fail_probe: false, fail_etag: false }.load(&mut vm).unwrap();
    assert_eq!(vm.loader_entries().len(), 1);
    assert_eq!(vm.entries(), &vec![("linux".to_string(), "Linux".to_string())]);
    assert_eq!(vm.etag(), "loader-etag");

    Daemon { backend: "uki", fail_probe: false, fail_etag: false }.load(&mut vm).unwrap();
    assert_eq!(vm.active_backend(), "uki");
    assert_eq!(vm.cmdline_params(), &vec!["quiet".to_string()]);
    assert!(vm.loader_entries().is_empty());
    assert_eq!(vm.etag(), "cmdline-etag");
    assert_eq!(vm.edit_route(), EditRoute::AddKernelParam);
}

#[test]
fn a_reply_the_load_did_not_ask_for_clears_the_view() {
    let mut vm = ViewModel::new();
    let (mut load, _) = ViewLoad::start(&mut vm);
    let next = load.advance(&mut vm, LoadEvent::LoaderConfEtag(Ok("e".into())));
    assert!(matches!(next, LoadAction::Done(Err(_))));
    assert!(vm.require_loaded_state().is_err());
    assert_eq!(ViewModel::load_source("systemd-boot"), LoadSource::LoaderEntries);
}

#[test]
fn grub_is_the_fallback_load_source() {
    assert_eq!(ViewModel::load_source("grub"), LoadSource::GrubConfig);
    assert_eq!(ViewModel::load_source(""), LoadSource::GrubConfig);
    let mut vm = ViewModel::new();
    vm.finish_load_grub("grub".into(), Vec::new(), "e".into());
    assert_eq!(vm.edit_route(), EditRoute::SetValue);
}

#[test]
fn empty_etag_blocks_writes() {
    let mut vm = ViewModel::new();
    vm.finish_load_grub("grub".into(), Vec::new(), String::new());
    assert!(vm.require_loaded_state().is_err());
}

#[test]
fn commit_edit_on_grub_sets_the_value_with_the_loaded_etag() {
    let mut vm = ViewModel::new();
    vm.finish_load_grub("grub".into(), vec![("GRUB_TIMEOUT".into(), "5".into())], "grub-etag".into());
    assert_eq!(
        vm.commit_edit("GRUB_TIMEOUT", "10"),
        Ok(BackendCall::SetValue {
            key: "GRUB_TIMEOUT".into(),
            value: "10".into(),
            etag: "grub-etag".into(),
        })
    );
}

#[test]
fn commit_edit_on_uki_adds_the_key_as_a_parameter() {
    let mut vm = ViewModel::new();
    vm.finish_load_kernel_cmdline("uki".into(), vec!["quiet".into()], "cmdline-etag".into());
    assert_eq!(
        vm.commit_edit("splash", "ignored"),
        Ok(BackendCall::AddKernelParam { param: "splash".into(), etag: "cmdline-etag".into() })
    );
    assert_eq!(
        vm.remove_kernel_param("quiet"),
        Ok(BackendCall::RemoveKernelParam { param: "quiet".into(), etag: "cmdline-etag".into() })
    );
}

#[test]
fn writes_after_a_failed_load_are_refused() {
    let mut vm = ViewModel::new();
    vm.finish_load_loader_entries("systemd-boot".into(), vec![linux_entry()], "loader-etag".into());
    assert_eq!(
        vm.set_default_entry("linux"),
        Ok(BackendCall::SetLoaderDefault { id: "linux".into(), etag: "loader-etag".into() })
    );
    vm.invalidate_loaded_state();
    assert_eq!(vm.commit_edit("GRUB_TIMEOUT", "10"), Err(NOT_READY_MESSAGE.to_string()));
    assert_eq!(vm.set_default_entry("linux"), Err(NOT_READY_MESSAGE.to_string()));
    assert_eq!(vm.remove_kernel_param("quiet"), Err(NOT_READY_MESSAGE.to_string()));
    assert_eq!(vm.restore_snapshot("snap"), Err(NOT_READY_MESSAGE.to_string()));
}

#[test]
fn restore_carries_the_etag_shown_before_confirmation() {
    let mut vm = ViewModel::new();
    vm.finish_load_grub("grub".into(), Vec::new(), "grub-etag".into());
    assert_eq!(
        vm.restore_snapshot("2026-04-30T130211Z-set_grub_value"),
        Ok(BackendCall::RestoreSnapshot {
            id: "2026-04-30T130211Z-set_grub_value".into(),
            etag: "grub-etag".into(),
        })
    );
}

#[test]
fn calls_that_need_no_loaded_state() {
    let vm = ViewModel::new();
    assert_eq!(vm.rebuild_grub(), BackendCall::RebuildGrubConfig);
    assert_eq!(vm.list_grub_entries(), BackendCall::ListGrubEntries);
    assert_eq!(vm.list_snapshots(), BackendCall::ListSnapshots);
    assert_eq!(vm.backup_nvram(), BackendCall::BackupNvram { target: String::new() });
    assert_eq!(vm.enroll_mok(), BackendCall::SignAndEnrollUki { path: String::new() });
    assert_eq!(
        vm.set_grub_default("1>0", "menu-etag", "config-etag"),
        BackendCall::SetGrubDefault {
            selected_path: "1>0".into(),
            menu_etag: "menu-etag".into(),
            config_etag: "config-etag".into(),
        }
    );
}

fn start() -> GrubValueWrite {
    let (w, a) = GrubValueWrite::new(
        "GRUB_TIMEOUT".into(),
        "10".into(),
        "etag-1".into(),
        "job-1".into(),
        "/etc/default/grub".into(),
    );
    assert!(matches!(a, WriteAction::ResolveCaller));
    w
}

fn authorized() -> GrubValueWrite {
    let mut w = start();
    match w.advance(WriteEvent::CallerResolved(Ok(1000))) {
        WriteAction::Authorize(act) => assert_eq!(act, actions::REWRITE_GRUB),
        other => panic!("expected Authorize, got {other:?}"),
    }
    assert!(matches!(w.advance(WriteEvent::Authorized(Ok(()))), WriteAction::ProbeHost));
    w
}

#[test]
fn set_grub_value_runs_every_phase_in_order() {
    let mut w = authorized();
    match w.advance(WriteEvent::HostProbed(None)) {
        WriteAction::Emit(e) => {
            assert_eq!(e.phase, Phase::Started);
            assert_eq!(e.caller_uid, 1000);
            assert_eq!(e.etag_before.as_deref(), Some("etag-1"));
            assert_eq!(e.target_paths, vec!["/etc/default/grub".to_string()]);
            assert_eq!(e.job_id, "job-1");
        }
        other => panic!("expected Started event, got {other:?}"),
    }
    assert!(matches!(w.advance(WriteEvent::Emitted), WriteAction::TakeSnapshot));
    match w.advance(WriteEvent::SnapshotTaken(Ok("snap-1".into()))) {
        WriteAction::Emit(e) => {
            assert_eq!(e.phase, Phase::SnapshotTaken);
            assert_eq!(e.snapshot_id.as_deref(), Some("snap-1"));
        }
        other => panic!("expected SnapshotTaken event, got {other:?}"),
    }
    assert!(matches!(w.advance(WriteEvent::Emitted), WriteAction::WriteValue));
    assert!(matches!(w.advance(WriteEvent::Written(Ok(()))), WriteAction::RefreshFailsafe));
    assert!(matches!(w.advance(WriteEvent::FailsafeRefreshed(Ok(()))), WriteAction::RebuildMenu));
    match w.advance(WriteEvent::Rebuilt(Ok(()))) {
        WriteAction::Emit(e) => {
            assert_eq!(e.phase, Phase::Completed);
            assert_eq!(e.exit_code, Some(0));
        }
        other => panic!("expected Completed event, got {other:?}"),
    }
    assert!(matches!(w.advance(WriteEvent::Emitted), WriteAction::Reply(Ok(()))));
}

#[test]
fn failed_failsafe_refresh_skips_the_rebuild() {
    let mut w = authorized();
    w.advance(WriteEvent::HostProbed(None));
    w.advance(WriteEvent::Emitted);
    w.advance(WriteEvent::SnapshotTaken(Ok("snap-1".into())));
    w.advance(WriteEvent::Emitted);
    assert!(matches!(w.advance(WriteEvent::Written(Ok(()))), WriteAction::RefreshFailsafe));
    match w.advance(WriteEvent::FailsafeRefreshed(Err(BootControlError::EspScanFailed { reason: "ro".into() }))) {
        WriteAction::Emit(e) => {
            assert_eq!(e.phase, Phase::Completed);
            assert_eq!(e.exit_code, Some(1));
        }
        other => panic!("expected Completed event, got {other:?}"),
    }
    assert!(matches!(
        w.advance(WriteEvent::Emitted),
        WriteAction::Reply(Err(DaemonError::EspScanFailed(_)))
    ));
}

#[test]
fn failed_write_is_audited_and_reported() {
    let mut w = authorized();
    w.advance(WriteEvent::HostProbed(None));
    w.advance(WriteEvent::Emitted);
    w.advance(WriteEvent::SnapshotTaken(Ok("snap-1".into())));
    w.advance(WriteEvent::Emitted);
    let err = BootControlError::StateMismatch { expected: "etag-1".into(), actual: "etag-2".into() };
    match w.advance(WriteEvent::Written(Err(err))) {
        WriteAction::Emit(e) => {
            assert_eq!(e.exit_code, Some(1));
            assert!(e.stderr_tail.starts_with("org.bootcontrol.Error.StateMismatch: "));
        }
        other => panic!("expected Completed event, got {other:?}"),
    }
    assert!(matches!(
        w.advance(WriteEvent::Emitted),
        WriteAction::Reply(Err(DaemonError::StateMismatch(_)))
    ));
}

#[test]
fn grub_snapshot_failure_prevents_config_write() {
    let mut w = authorized();
    w.advance(WriteEvent::HostProbed(None));
    w.advance(WriteEvent::Emitted);
    match w.advance(WriteEvent::SnapshotTaken(Err("disk full".into()))) {
        WriteAction::Reply(Err(DaemonError::EspScanFailed(m))) => {
            assert_eq!(m, "snapshot failed: disk full")
        }
        other => panic!("expected EspScanFailed reply, got {other:?}"),
    }
}

#[test]
fn denied_caller_gets_no_host_probe() {
    let mut w = start();
    w.advance(WriteEvent::CallerResolved(Ok(1000)));
    assert!(matches!(
        w.advance(WriteEvent::Authorized(Err(BootControlError::PolkitDenied))),
        WriteAction::Reply(Err(DaemonError::PolkitDenied(_)))
    ));
}

#[test]
fn immutable_host_refuses_write() {
    let mut w = authorized();
    match w.advance(WriteEvent::HostProbed(Some(ImmutableDistro::SteamOs))) {
        WriteAction::Reply(Err(DaemonError::ImmutableDistroDetected(m))) => {
            assert_eq!(m, "immutable distribution detected: steamos")
        }
        other => panic!("expected ImmutableDistroDetected reply, got {other:?}"),
    }
}

#[test]
fn blacklisted_value_is_refused_before_snapshot() {
    let (mut w, _) = GrubValueWrite::new(
        "GRUB_CMDLINE_LINUX_DEFAULT".into(),
        "init=/bin/sh".into(),
        "etag-1".into(),
        "job-1".into(),
        "/etc/default/grub".into(),
    );
    w.advance(WriteEvent::CallerResolved(Ok(1000)));
    w.advance(WriteEvent::Authorized(Ok(())));
    assert!(matches!(
        w.advance(WriteEvent::HostProbed(None)),
        WriteAction::Reply(Err(DaemonError::SecurityPolicyViolation(_)))
    ));
}

#[test]
fn out_of_order_event_fails_the_call() {
    let mut w = start();
    assert!(matches!(
        w.advance(WriteEvent::Emitted),
        WriteAction::Reply(Err(DaemonError::Failed(_)))
    ));
    let mut w = start();
    assert!(matches!(
        w.advance(WriteEvent::CallerResolved(Err("no sender".into()))),
        WriteAction::Reply(Err(DaemonError::PolkitDenied(_)))
    ));
}
