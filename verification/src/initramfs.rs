//! Initramfs regeneration: the three supported tools, which one a host
//! uses, and the command each runs. Searching `PATH` and running the
//! command are the daemon's I/O; this module decides which binary to run
//! with which arguments, and what the outcome means.

use vstd::prelude::*;
use vstd::string::StringExecFns;
use crate::error::BootControlError;

verus! {

/// What probing the host for a tool found: whether the tool's override
/// path exists (when it has one) and where the tool was found on `PATH`.
#[derive(Debug, Clone, PartialEq, Eq)]
pub struct ToolProbe {
    pub override_exists: bool,
    pub on_path: Option<String>,
}

/// The binary a tool runs: its override when it has one (and only when
/// that path exists), otherwise where it was found on `PATH`.
pub open spec fn resolved_binary(binary_override: Option<String>, probe: ToolProbe) -> Option<Seq<char>> {
    match binary_override {
        Some(p) => if probe.override_exists {
            Some(p@)
        } else {
            None
        },
        None => match probe.on_path {
            Some(q) => Some(q@),
            None => None,
        },
    }
}

fn resolve_binary(binary_override: &Option<String>, probe: &ToolProbe) -> (r: Option<String>)
    ensures
        match r {
            Some(b) => resolved_binary(*binary_override, *probe) == Some(b@),
            None => resolved_binary(*binary_override, *probe) is None,
        },
{
    match binary_override {
        Some(p) => if probe.override_exists {
            Some(p.clone())
        } else {
            None
        },
        None => match &probe.on_path {
            Some(q) => Some(q.clone()),
            None => None,
        },
    }
}

/// A command to run: a binary and its arguments.
#[derive(Debug, Clone, PartialEq, Eq)]
pub struct ToolCommand {
    pub binary: String,
    pub args: Vec<String>,
}

/// The views of a list of texts.
pub open spec fn texts(v: Seq<String>) -> Seq<Seq<char>> {
    v.map_values(|s: String| s@)
}

/// The command a tool runs to regenerate the initramfs, or `ToolNotFound`
/// naming the tool when its binary cannot be resolved.
pub open spec fn plans_command(
    r: Result<ToolCommand, BootControlError>,
    name: Seq<char>,
    binary: Option<Seq<char>>,
    args: Seq<Seq<char>>,
) -> bool {
    match binary {
        Some(b) => r matches Ok(c) && c.binary@ == b && texts(c.args@) == args,
        None => r matches Err(e) && e matches BootControlError::ToolNotFound { tool } && tool@ == name,
    }
}

/// `mkinitcpio`: regenerates every preset with `mkinitcpio -P`.
#[derive(Debug, Clone)]
pub struct MkinitcpioDriver {
    /// Explicit binary path (tests); `None` searches `PATH`.
    pub binary_override: Option<String>,
}

/// `dracut`: regenerates every initramfs with `dracut --regenerate-all`.
#[derive(Debug, Clone)]
pub struct DracutDriver {
    /// Explicit binary path (tests); `None` searches `PATH`.
    pub binary_override: Option<String>,
}

/// `kernel-install`: runs `kernel-install add <version>`.
#[derive(Debug, Clone)]
pub struct KernelInstallDriver {
    /// Kernel release to (re)install.
    pub kernel_version: String,
    /// Explicit binary path (tests); `None` searches `PATH`.
    pub binary_override: Option<String>,
}

impl MkinitcpioDriver {
    /// The tool's name.
    pub fn name(&self) -> (n: &'static str)
        ensures
            n@ == "mkinitcpio"@,
    {
        "mkinitcpio"
    }

    /// The binary to run, given what probing the host found.
    pub fn binary_path(&self, probe: &ToolProbe) -> (r: Option<String>)
        ensures
            match r {
                Some(b) => resolved_binary(self.binary_override, *probe) == Some(b@),
                None => resolved_binary(self.binary_override, *probe) is None,
            },
    {
        resolve_binary(&self.binary_override, probe)
    }

    /// The regeneration command: `<binary> -P`.
    pub fn regenerate_command(&self, probe: &ToolProbe) -> (r: Result<ToolCommand, BootControlError>)
        ensures
            plans_command(r, "mkinitcpio"@, resolved_binary(self.binary_override, *probe), seq!["-P"@]),
    {
        match self.binary_path(probe) {
            Some(b) => {
                let args = vec![String::from_str("-P")];
                assert(texts(args@) =~= seq!["-P"@]);
                Ok(ToolCommand { binary: b, args })
            },
            None => Err(BootControlError::ToolNotFound { tool: String::from_str(self.name()) }),
        }
    }
}

impl DracutDriver {
    /// The tool's name.
    pub fn name(&self) -> (n: &'static str)
        ensures
            n@ == "dracut"@,
    {
        "dracut"
    }

    /// The binary to run, given what probing the host found.
    pub fn binary_path(&self, probe: &ToolProbe) -> (r: Option<String>)
        ensures
            match r {
                Some(b) => resolved_binary(self.binary_override, *probe) == Some(b@),
                None => resolved_binary(self.binary_override, *probe) is None,
            },
    {
        resolve_binary(&self.binary_override, probe)
    }

    /// The regeneration command: `<binary> --regenerate-all`.
    pub fn regenerate_command(&self, probe: &ToolProbe) -> (r: Result<ToolCommand, BootControlError>)
        ensures
            plans_command(r, "dracut"@, resolved_binary(self.binary_override, *probe), seq!["--regenerate-all"@]),
    {
        match self.binary_path(probe) {
            Some(b) => {
                let args = vec![String::from_str("--regenerate-all")];
                assert(texts(args@) =~= seq!["--regenerate-all"@]);
                Ok(ToolCommand { binary: b, args })
            },
            None => Err(BootControlError::ToolNotFound { tool: String::from_str(self.name()) }),
        }
    }
}

impl KernelInstallDriver {
    /// The tool's name.
    pub fn name(&self) -> (n: &'static str)
        ensures
            n@ == "kernel-install"@,
    {
        "kernel-install"
    }

    /// The binary to run, given what probing the host found.
    pub fn binary_path(&self, probe: &ToolProbe) -> (r: Option<String>)
        ensures
            match r {
                Some(b) => resolved_binary(self.binary_override, *probe) == Some(b@),
                None => resolved_binary(self.binary_override, *probe) is None,
            },
    {
        resolve_binary(&self.binary_override, probe)
    }

    /// The regeneration command: `<binary> add <version>`.
    pub fn regenerate_command(&self, probe: &ToolProbe) -> (r: Result<ToolCommand, BootControlError>)
        ensures
            plans_command(
                r,
                "kernel-install"@,
                resolved_binary(self.binary_override, *probe),
                seq!["add"@, self.kernel_version@],
            ),
    {
        match self.binary_path(probe) {
            Some(b) => {
                let args = vec![String::from_str("add"), self.kernel_version.clone()];
                assert(texts(args@) =~= seq!["add"@, self.kernel_version@]);
                Ok(ToolCommand { binary: b, args })
            },
            None => Err(BootControlError::ToolNotFound { tool: String::from_str(self.name()) }),
        }
    }
}

/// The initramfs tool a host uses.
#[derive(Debug, Clone)]
pub enum InitramfsTool {
    Mkinitcpio(MkinitcpioDriver),
    Dracut(DracutDriver),
    KernelInstall(KernelInstallDriver),
}

impl InitramfsTool {
    /// The tool's name.
    pub fn name(&self) -> (n: &'static str)
        ensures
            n@ == match self {
                InitramfsTool::Mkinitcpio(_) => "mkinitcpio"@,
                InitramfsTool::Dracut(_) => "dracut"@,
                InitramfsTool::KernelInstall(_) => "kernel-install"@,
            },
    {
        match self {
            InitramfsTool::Mkinitcpio(d) => d.name(),
            InitramfsTool::Dracut(d) => d.name(),
            InitramfsTool::KernelInstall(d) => d.name(),
        }
    }
}

/// The tool a host uses, by priority: `mkinitcpio`, then `dracut`, then
/// `kernel-install` (for `kernel_version`), each only when found on
/// `PATH`; `None` when none is.
pub fn detect_driver(
    kernel_version: &str,
    mkinitcpio_found: bool,
    dracut_found: bool,
    kernel_install_found: bool,
) -> (r: Option<InitramfsTool>)
    ensures
        mkinitcpio_found ==> (r matches Some(InitramfsTool::Mkinitcpio(d)) && d.binary_override is None),
        !mkinitcpio_found && dracut_found ==> (r matches Some(InitramfsTool::Dracut(d))
            && d.binary_override is None),
        !mkinitcpio_found && !dracut_found && kernel_install_found ==> (r matches Some(
            InitramfsTool::KernelInstall(d),
        ) && d.binary_override is None && d.kernel_version@ == kernel_version@),
        !mkinitcpio_found && !dracut_found && !kernel_install_found ==> r is None,
{
    if mkinitcpio_found {
        Some(InitramfsTool::Mkinitcpio(MkinitcpioDriver { binary_override: None }))
    } else if dracut_found {
        Some(InitramfsTool::Dracut(DracutDriver { binary_override: None }))
    } else if kernel_install_found {
        Some(
            InitramfsTool::KernelInstall(
                KernelInstallDriver { kernel_version: String::from_str(kernel_version), binary_override: None },
            ),
        )
    } else {
        None
    }
}

/// What running a command gave: it could not be spawned (the system's
/// description), or it ran with this success flag and standard error.
#[derive(Debug, Clone, PartialEq, Eq)]
pub enum CommandRun {
    SpawnFailed(String),
    Exited { success: bool, stderr: String },
}

/// The outcome of a tool's command: success when it exited successfully;
/// otherwise `EspScanFailed` describing the spawn failure or carrying the
/// tool's standard error.
pub fn command_outcome(driver_name: &str, run: CommandRun) -> (r: Result<(), BootControlError>)
    ensures
        match run {
            CommandRun::SpawnFailed(e) => (r matches Err(x) && x matches BootControlError::EspScanFailed {
                reason,
            } && reason@ == driver_name@ + ": failed to spawn process: "@ + e@),
            CommandRun::Exited { success, stderr } => if success {
                r is Ok
            } else {
                (r matches Err(x) && x matches BootControlError::EspScanFailed { reason } && reason@
                    == driver_name@ + " exited with error:\n"@ + stderr@)
            },
        },
{
    match run {
        CommandRun::SpawnFailed(e) => {
            let mut reason = String::from_str(driver_name);
            reason.append(": failed to spawn process: ");
            reason.append(e.as_str());
            Err(BootControlError::EspScanFailed { reason })
        },
        CommandRun::Exited { success, stderr } => {
            if success {
                Ok(())
            } else {
                let mut reason = String::from_str(driver_name);
                reason.append(" exited with error:\n");
                reason.append(stderr.as_str());
                Err(BootControlError::EspScanFailed { reason })
            }
        },
    }
}

} // verus!
