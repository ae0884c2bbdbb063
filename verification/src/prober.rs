//! Which bootloader a host runs, from the files it has.

use vstd::prelude::*;

verus! {

/// The bootloader a host runs.
#[derive(Debug, Clone, Copy, PartialEq, Eq, Structural)]
pub enum DetectedBootloader {
    /// systemd-boot (`/boot/loader/loader.conf` or `/boot/EFI/systemd/`).
    SystemdBoot,
    /// GRUB (`/etc/default/grub`).
    Grub,
    /// Neither was found.
    Unknown,
}

/// The bootloader the host's files point to: systemd-boot when its loader
/// configuration or EFI directory exists, GRUB when `/etc/default/grub`
/// exists, unknown otherwise.
pub open spec fn detected(loader_conf: bool, systemd_efi_dir: bool, grub_default: bool) -> DetectedBootloader {
    if loader_conf || systemd_efi_dir {
        DetectedBootloader::SystemdBoot
    } else if grub_default {
        DetectedBootloader::Grub
    } else {
        DetectedBootloader::Unknown
    }
}

/// Classify a host from which bootloader files exist.
pub fn detect_bootloader(loader_conf: bool, systemd_efi_dir: bool, grub_default: bool) -> (d: DetectedBootloader)
    ensures
        d == detected(loader_conf, systemd_efi_dir, grub_default),
{
    if loader_conf || systemd_efi_dir {
        DetectedBootloader::SystemdBoot
    } else if grub_default {
        DetectedBootloader::Grub
    } else {
        DetectedBootloader::Unknown
    }
}

/// A systemd-boot indicator (its `loader.conf` or its EFI directory)
/// decides the host as systemd-boot whatever the GRUB indicator says, and
/// GRUB is chosen only when `/etc/default/grub` exists and neither
/// systemd-boot indicator does.
pub proof fn lemma_systemd_boot_indicators_win(loader_conf: bool, systemd_efi_dir: bool, grub_default: bool)
    ensures
        loader_conf || systemd_efi_dir ==> detected(loader_conf, systemd_efi_dir, grub_default)
            == DetectedBootloader::SystemdBoot && detected(loader_conf, systemd_efi_dir, !grub_default)
            == DetectedBootloader::SystemdBoot,
        detected(loader_conf, systemd_efi_dir, grub_default) == DetectedBootloader::Grub <==> (grub_default
            && !loader_conf && !systemd_efi_dir),
        detected(loader_conf, systemd_efi_dir, grub_default) == DetectedBootloader::Unknown <==> (!grub_default
            && !loader_conf && !systemd_efi_dir),
{
}

/// The backend that manages a host's boot configuration.
#[derive(Debug, Clone, Copy, PartialEq, Eq, Structural)]
pub enum BootloaderBackend {
    Grub,
    SystemdBoot,
}

impl BootloaderBackend {
    /// The backend's name, as reported over D-Bus.
    pub fn name(&self) -> (n: &'static str)
        ensures
            n@ == match self {
                BootloaderBackend::Grub => "grub"@,
                BootloaderBackend::SystemdBoot => "systemd-boot"@,
            },
    {
        match self {
            BootloaderBackend::Grub => "grub",
            BootloaderBackend::SystemdBoot => "systemd-boot",
        }
    }
}

/// The backend for a detected bootloader: systemd-boot for systemd-boot,
/// GRUB otherwise (an unknown host falls back to GRUB).
pub fn build_backend(d: DetectedBootloader) -> (b: BootloaderBackend)
    ensures
        b == (if d == DetectedBootloader::SystemdBoot {
            BootloaderBackend::SystemdBoot
        } else {
            BootloaderBackend::Grub
        }),
{
    match d {
        DetectedBootloader::SystemdBoot => BootloaderBackend::SystemdBoot,
        DetectedBootloader::Grub => BootloaderBackend::Grub,
        DetectedBootloader::Unknown => BootloaderBackend::Grub,
    }
}

} // verus!
