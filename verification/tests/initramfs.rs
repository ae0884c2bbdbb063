use bootcontrol::error::BootControlError;
use bootcontrol::initramfs::{
    command_outcome, detect_driver, CommandRun, DracutDriver, KernelInstallDriver,
    MkinitcpioDriver, ToolCommand, ToolProbe,
};

fn missing_override() -> ToolProbe {
    ToolProbe { override_exists: false, on_path: None }
}

fn make_kernel_install(version: &str) -> KernelInstallDriver {
    KernelInstallDriver { kernel_version: version.to_string(), binary_override: None }
}

#[test]
fn name_returns_dracut() {
    let d = DracutDriver { binary_override: None };
    assert_eq!(d.name(), "dracut");
}

#[test]
fn dracut_binary_path_returns_none_for_nonexistent_override() {
    let d = DracutDriver {
        binary_override: Some("/this/path/does/not/exist/dracut".into()),
    };
    assert!(d.binary_path(&missing_override()).is_none());
}

#[test]
fn dracut_regenerate_returns_tool_not_found_when_binary_missing() {
    let d = DracutDriver {
        binary_override: Some("/this/path/does/not/exist/dracut".into()),
    };
    assert!(matches!(
        d.regenerate_command(&missing_override()),
        Err(BootControlError::ToolNotFound { .. })
    ));
}

#[test]
fn name_returns_kernel_install() {
    assert_eq!(make_kernel_install("6.8.1").name(), "kernel-install");
}

#[test]
fn kernel_install_binary_path_returns_none_for_nonexistent_override() {
    let d = KernelInstallDriver {
        kernel_version: "6.8.1".to_string(),
        binary_override: Some("/this/path/does/not/exist/kernel-install".into()),
    };
    assert!(d.binary_path(&missing_override()).is_none());
}

#[test]
fn kernel_install_regenerate_returns_tool_not_found_when_binary_missing() {
    let d = KernelInstallDriver {
        kernel_version: "6.8.1".to_string(),
        binary_override: Some("/this/path/does/not/exist/kernel-install".into()),
    };
    assert!(matches!(
        d.regenerate_command(&missing_override()),
        Err(BootControlError::ToolNotFound { .. })
    ));
}

#[test]
fn name_returns_mkinitcpio() {
    let d = MkinitcpioDriver { binary_override: None };
    assert_eq!(d.name(), "mkinitcpio");
}

#[test]
fn mkinitcpio_binary_path_returns_none_for_nonexistent_override() {
    let d = MkinitcpioDriver {
        binary_override: Some("/this/path/does/not/exist/mkinitcpio".into()),
    };
    assert!(d.binary_path(&missing_override()).is_none());
}

#[test]
fn mkinitcpio_regenerate_returns_tool_not_found_when_binary_missing() {
    let d = MkinitcpioDriver {
        binary_override: Some("/this/path/does/not/exist/mkinitcpio".into()),
    };
    assert!(matches!(
        d.regenerate_command(&missing_override()),
        Err(BootControlError::ToolNotFound { .. })
    ));
}

#[test]
fn detect_driver_returns_none_when_no_tool_on_path() {
    assert!(detect_driver("6.8.1", false, false, false).is_none());
}

#[test]
fn detect_driver_result_is_some_when_tool_is_available() {
    let driver = detect_driver("6.8.1", true, false, false).expect("mkinitcpio on PATH");
    assert_eq!(driver.name(), "mkinitcpio");
}

#[test]
fn detect_driver_prefers_mkinitcpio_over_dracut() {
    let driver = detect_driver("6.8.1", true, true, false).expect("tools on PATH");
    assert_eq!(driver.name(), "mkinitcpio");
    let driver = detect_driver("6.8.1", false, true, true).expect("tools on PATH");
    assert_eq!(driver.name(), "dracut");
    let driver = detect_driver("6.8.1", false, false, true).expect("tools on PATH");
    assert_eq!(driver.name(), "kernel-install");
}

#[test]
fn commands_found_on_path() {
    let probe = ToolProbe { override_exists: false, on_path: Some("/usr/bin/tool".into()) };
    let m = MkinitcpioDriver { binary_override: None }.regenerate_command(&probe).unwrap();
    assert_eq!(m, ToolCommand { binary: "/usr/bin/tool".into(), args: vec!["-P".into()] });
    let d = DracutDriver { binary_override: None }.regenerate_command(&probe).unwrap();
    assert_eq!(d.args, vec!["--regenerate-all".to_string()]);
    let k = make_kernel_install("6.8.1").regenerate_command(&probe).unwrap();
    assert_eq!(k.args, vec!["add".to_string(), "6.8.1".to_string()]);
}

#[test]
fn existing_override_is_used() {
    let probe = ToolProbe { override_exists: true, on_path: Some("/usr/bin/dracut".into()) };
    let d = DracutDriver { binary_override: Some("/opt/dracut".into()) };
    assert_eq!(d.binary_path(&probe), Some("/opt/dracut".to_string()));
}

#[test]
fn command_outcomes() {
    assert_eq!(
        command_outcome("dracut", CommandRun::Exited { success: true, stderr: String::new() }),
        Ok(())
    );
    assert_eq!(
        command_outcome("dracut", CommandRun::Exited { success: false, stderr: "boom".into() }),
        Err(BootControlError::EspScanFailed { reason: "dracut exited with error:\nboom".into() })
    );
    assert_eq!(
        command_outcome("dracut", CommandRun::SpawnFailed("no such file".into())),
        Err(BootControlError::EspScanFailed {
            reason: "dracut: failed to spawn process: no such file".into()
        })
    );
}
