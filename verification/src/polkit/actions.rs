//! The per-intent Polkit action IDs declared in the shipped policy file.

use vstd::prelude::*;

verus! {

/// Modify `/etc/default/grub`, `/etc/kernel/cmdline`, or rpm-ostree kargs.
pub const REWRITE_GRUB: &'static str = "org.bootcontrol.rewrite-grub";

/// Modify a boot entry / loader configuration / UEFI BootOrder / BootNext.
pub const WRITE_BOOTLOADER: &'static str = "org.bootcontrol.write-bootloader";

/// Enroll a Machine Owner Key or back up NVRAM keys.
pub const ENROLL_MOK: &'static str = "org.bootcontrol.enroll-mok";

/// Restore boot configuration from a previously captured snapshot.
pub const RESTORE_SNAPSHOT: &'static str = "org.bootcontrol.restore-snapshot";

} // verus!
