//! The daemon's configuration: the files it manages and the active
//! bootloader backend. Every path is fixed at construction (tests point
//! them into a scratch directory), and the set of paths a snapshot restore
//! may write is derived from them, so the two cannot drift apart.

use vstd::prelude::*;
use vstd::string::StringExecFns;
use crate::prober::BootloaderBackend;

verus! {

/// Where the failsafe menu-entry snippet is written by default.
pub const DEFAULT_FAILSAFE_CFG_PATH: &'static str = "/etc/bootcontrol/failsafe.cfg";

/// Where `grub-mkconfig` writes the generated menu by default.
pub const DEFAULT_GRUB_CFG_PATH: &'static str = "/boot/grub/grub.cfg";

/// The systemd-boot loader entry directory by default.
pub const DEFAULT_LOADER_ENTRIES_DIR: &'static str = "/boot/loader/entries";

/// The systemd-boot global configuration by default.
pub const DEFAULT_LOADER_CONF_PATH: &'static str = "/boot/loader/loader.conf";

/// The UKI kernel command line file by default.
pub const DEFAULT_KERNEL_CMDLINE_PATH: &'static str = "/etc/kernel/cmdline";

/// The directory pre-write snapshots go under by default.
pub const DEFAULT_SNAPSHOT_ROOT: &'static str = "/var/lib/bootcontrol/snapshots";

/// The configuration, as texts.
#[verifier::ext_equal]
pub struct ManagerConfig {
    pub grub_path: Seq<char>,
    pub failsafe_cfg_path: Seq<char>,
    pub grub_cfg_path: Seq<char>,
    pub backend: BootloaderBackend,
    pub loader_entries_dir: Seq<char>,
    pub loader_conf_path: Seq<char>,
    pub kernel_cmdline_path: Seq<char>,
    pub snapshot_root: Seq<char>,
}

/// The configuration with the given GRUB-side paths, systemd-boot and UKI
/// paths, and the default snapshot root.
pub open spec fn config_of(
    grub_path: Seq<char>,
    failsafe_cfg_path: Seq<char>,
    grub_cfg_path: Seq<char>,
    loader_entries_dir: Seq<char>,
    loader_conf_path: Seq<char>,
    kernel_cmdline_path: Seq<char>,
    backend: BootloaderBackend,
) -> ManagerConfig {
    ManagerConfig {
        grub_path,
        failsafe_cfg_path,
        grub_cfg_path,
        backend,
        loader_entries_dir,
        loader_conf_path,
        kernel_cmdline_path,
        snapshot_root: DEFAULT_SNAPSHOT_ROOT@,
    }
}

/// The paths the daemon writes — every file it owns and every directory it
/// writes into — in a fixed order: the GRUB configuration, the failsafe
/// snippet, the generated menu, the loader entry directory, `loader.conf`,
/// the kernel command line.
pub open spec fn managed_of(c: ManagerConfig) -> Seq<Seq<char>> {
    seq![
        c.grub_path,
        c.failsafe_cfg_path,
        c.grub_cfg_path,
        c.loader_entries_dir,
        c.loader_conf_path,
        c.kernel_cmdline_path,
    ]
}

/// The daemon's configuration.
#[derive(Debug, Clone)]
pub struct GrubManager {
    grub_path: String,
    failsafe_cfg_path: String,
    grub_cfg_path: String,
    backend: BootloaderBackend,
    loader_entries_dir: String,
    loader_conf_path: String,
    kernel_cmdline_path: String,
    snapshot_root: String,
}

impl View for GrubManager {
    type V = ManagerConfig;

    closed spec fn view(&self) -> ManagerConfig {
        ManagerConfig {
            grub_path: self.grub_path@,
            failsafe_cfg_path: self.failsafe_cfg_path@,
            grub_cfg_path: self.grub_cfg_path@,
            backend: self.backend,
            loader_entries_dir: self.loader_entries_dir@,
            loader_conf_path: self.loader_conf_path@,
            kernel_cmdline_path: self.kernel_cmdline_path@,
            snapshot_root: self.snapshot_root@,
        }
    }
}

impl GrubManager {
    /// Manage the GRUB configuration at `grub_path`; every other path is
    /// the production default.
    pub fn new(grub_path: String, backend: BootloaderBackend) -> (m: Self)
        ensures
            m@ == config_of(
                grub_path@,
                DEFAULT_FAILSAFE_CFG_PATH@,
                DEFAULT_GRUB_CFG_PATH@,
                DEFAULT_LOADER_ENTRIES_DIR@,
                DEFAULT_LOADER_CONF_PATH@,
                DEFAULT_KERNEL_CMDLINE_PATH@,
                backend,
            ),
    {
        Self::with_all_paths(grub_path, String::from_str(DEFAULT_FAILSAFE_CFG_PATH), String::from_str(DEFAULT_GRUB_CFG_PATH), backend)
    }

    /// As [`GrubManager::new`], with the failsafe snippet written to
    /// `failsafe_cfg_path`.
    pub fn with_failsafe_path(grub_path: String, failsafe_cfg_path: String, backend: BootloaderBackend) -> (m: Self)
        ensures
            m@ == config_of(
                grub_path@,
                failsafe_cfg_path@,
                DEFAULT_GRUB_CFG_PATH@,
                DEFAULT_LOADER_ENTRIES_DIR@,
                DEFAULT_LOADER_CONF_PATH@,
                DEFAULT_KERNEL_CMDLINE_PATH@,
                backend,
            ),
    {
        Self::with_all_paths(grub_path, failsafe_cfg_path, String::from_str(DEFAULT_GRUB_CFG_PATH), backend)
    }

    /// As [`GrubManager::with_failsafe_path`], with the generated menu
    /// written to `grub_cfg_path`.
    pub fn with_all_paths(
        grub_path: String,
        failsafe_cfg_path: String,
        grub_cfg_path: String,
        backend: BootloaderBackend,
    ) -> (m: Self)
        ensures
            m@ == config_of(
                grub_path@,
                failsafe_cfg_path@,
                grub_cfg_path@,
                DEFAULT_LOADER_ENTRIES_DIR@,
                DEFAULT_LOADER_CONF_PATH@,
                DEFAULT_KERNEL_CMDLINE_PATH@,
                backend,
            ),
    {
        Self::with_extended_paths(
            grub_path,
            failsafe_cfg_path,
            grub_cfg_path,
            String::from_str(DEFAULT_LOADER_ENTRIES_DIR),
            String::from_str(DEFAULT_LOADER_CONF_PATH),
            String::from_str(DEFAULT_KERNEL_CMDLINE_PATH),
            backend,
        )
    }

    /// Every managed path given; the snapshot root is the default.
    pub fn with_extended_paths(
        grub_path: String,
        failsafe_cfg_path: String,
        grub_cfg_path: String,
        loader_entries_dir: String,
        loader_conf_path: String,
        kernel_cmdline_path: String,
        backend: BootloaderBackend,
    ) -> (m: Self)
        ensures
            m@ == config_of(
                grub_path@,
                failsafe_cfg_path@,
                grub_cfg_path@,
                loader_entries_dir@,
                loader_conf_path@,
                kernel_cmdline_path@,
                backend,
            ),
    {
        GrubManager {
            grub_path,
            failsafe_cfg_path,
            grub_cfg_path,
            backend,
            loader_entries_dir,
            loader_conf_path,
            kernel_cmdline_path,
            snapshot_root: String::from_str(DEFAULT_SNAPSHOT_ROOT),
        }
    }

    /// The same configuration with snapshots going under `root`.
    pub fn with_snapshot_root(self, root: String) -> (m: Self)
        ensures
            m@ == (ManagerConfig { snapshot_root: root@, ..self@ }),
    {
        GrubManager { snapshot_root: root, ..self }
    }

    /// The GRUB configuration file (`/etc/default/grub` in production).
    pub fn grub_path(&self) -> (p: &str)
        ensures
            p@ == self@.grub_path,
    {
        self.grub_path.as_str()
    }

    /// Where the failsafe snippet is written.
    pub fn failsafe_cfg_path(&self) -> (p: &str)
        ensures
            p@ == self@.failsafe_cfg_path,
    {
        self.failsafe_cfg_path.as_str()
    }

    /// Where `grub-mkconfig` writes the generated menu.
    pub fn grub_cfg_path(&self) -> (p: &str)
        ensures
            p@ == self@.grub_cfg_path,
    {
        self.grub_cfg_path.as_str()
    }

    /// The active bootloader backend.
    pub fn backend(&self) -> (b: BootloaderBackend)
        ensures
            b == self@.backend,
    {
        self.backend
    }

    /// The systemd-boot loader entry directory.
    pub fn loader_entries_dir(&self) -> (p: &str)
        ensures
            p@ == self@.loader_entries_dir,
    {
        self.loader_entries_dir.as_str()
    }

    /// The systemd-boot `loader.conf`.
    pub fn loader_conf_path(&self) -> (p: &str)
        ensures
            p@ == self@.loader_conf_path,
    {
        self.loader_conf_path.as_str()
    }

    /// The UKI kernel command line file.
    pub fn kernel_cmdline_path(&self) -> (p: &str)
        ensures
            p@ == self@.kernel_cmdline_path,
    {
        self.kernel_cmdline_path.as_str()
    }

    /// The directory snapshots go under.
    pub fn snapshot_root(&self) -> (p: &str)
        ensures
            p@ == self@.snapshot_root,
    {
        self.snapshot_root.as_str()
    }

    /// The paths a snapshot restore may write: exactly the configured
    /// files and directories, nothing hardcoded besides them.
    pub fn managed_paths(&self) -> (v: Vec<String>)
        ensures
            v@.map_values(|s: String| s@) == managed_of(self@),
    {
        let v = vec![
            self.grub_path.clone(),
            self.failsafe_cfg_path.clone(),
            self.grub_cfg_path.clone(),
            self.loader_entries_dir.clone(),
            self.loader_conf_path.clone(),
            self.kernel_cmdline_path.clone(),
        ];
        assert(v@.map_values(|s: String| s@) =~= managed_of(self@));
        v
    }
}

} // verus!
