use bootcontrol::manager::GrubManager;
use bootcontrol::prober::BootloaderBackend;

#[test]
fn new_keeps_grub_path_and_defaults_the_rest() {
    let m = GrubManager::new("/etc/default/grub".to_string(), BootloaderBackend::Grub);
    assert_eq!(m.grub_path(), "/etc/default/grub");
    assert_eq!(m.failsafe_cfg_path(), "/etc/bootcontrol/failsafe.cfg");
    assert_eq!(m.grub_cfg_path(), "/boot/grub/grub.cfg");
    assert_eq!(m.loader_entries_dir(), "/boot/loader/entries");
    assert_eq!(m.loader_conf_path(), "/boot/loader/loader.conf");
    assert_eq!(m.kernel_cmdline_path(), "/etc/kernel/cmdline");
    assert_eq!(m.snapshot_root(), "/var/lib/bootcontrol/snapshots");
    assert_eq!(m.backend(), BootloaderBackend::Grub);
}

#[test]
fn with_failsafe_path_overrides_only_the_snippet() {
    let m = GrubManager::with_failsafe_path(
        "/etc/default/grub".to_string(),
        "/tmp/test-failsafe.cfg".to_string(),
        BootloaderBackend::SystemdBoot,
    );
    assert_eq!(m.grub_path(), "/etc/default/grub");
    assert_eq!(m.failsafe_cfg_path(), "/tmp/test-failsafe.cfg");
    assert_eq!(m.grub_cfg_path(), "/boot/grub/grub.cfg");
    assert_eq!(m.backend(), BootloaderBackend::SystemdBoot);
}

#[test]
fn with_all_paths_sets_the_generated_menu() {
    let m = GrubManager::with_all_paths(
        "/tmp/grub".to_string(),
        "/tmp/failsafe.cfg".to_string(),
        "/tmp/grub.cfg".to_string(),
        BootloaderBackend::Grub,
    );
    assert_eq!(m.grub_path(), "/tmp/grub");
    assert_eq!(m.grub_cfg_path(), "/tmp/grub.cfg");
    assert_eq!(m.loader_conf_path(), "/boot/loader/loader.conf");
}

#[test]
fn snapshot_root_override_and_managed_paths() {
    let m = GrubManager::with_extended_paths(
        "/t/grub".to_string(),
        "/t/failsafe.cfg".to_string(),
        "/t/grub.cfg".to_string(),
        "/t/entries".to_string(),
        "/t/loader.conf".to_string(),
        "/t/cmdline".to_string(),
        BootloaderBackend::Grub,
    )
    .with_snapshot_root("/tmp/snapshots".to_string());
    assert_eq!(m.snapshot_root(), "/tmp/snapshots");
    assert_eq!(
        m.managed_paths(),
        vec![
            "/t/grub".to_string(),
            "/t/failsafe.cfg".to_string(),
            "/t/grub.cfg".to_string(),
            "/t/entries".to_string(),
            "/t/loader.conf".to_string(),
            "/t/cmdline".to_string(),
        ]
    );
    assert!(!m.managed_paths().contains(&"/tmp/snapshots".to_string()));
}
