//! Secure Boot: signing UKIs and enrolling the Machine Owner Key (sbsign,
//! mokutil), backing up the Secure Boot variables, and generating a custom
//! key set. Running the tools and touching files is the daemon's I/O; which
//! tool runs with which arguments, which variables are backed up, and what
//! every outcome means is decided here.

use vstd::prelude::*;
use vstd::string::StringExecFns;
use crate::error::BootControlError;
use crate::initramfs::{texts, CommandRun, ToolCommand, ToolProbe};
use crate::text::{chars_of, starts_with_exec, starts_with_seq};

verus! {

// ── MOK signing ───────────────────────────────────────────────────────────

/// Default MOK private key.
pub const DEFAULT_MOK_KEY_PATH: &'static str = "/var/lib/bootcontrol/keys/mok.key";

/// Default MOK certificate.
pub const DEFAULT_MOK_CERT_PATH: &'static str = "/var/lib/bootcontrol/keys/mok.crt";

/// The MOK key path: the `BOOTCONTROL_MOK_KEY` override when set, the
/// default otherwise.
pub fn get_mok_key_path(env_override: Option<&str>) -> (p: String)
    ensures
        p@ == match env_override {
            Some(e) => e@,
            None => DEFAULT_MOK_KEY_PATH@,
        },
{
    match env_override {
        Some(e) => String::from_str(e),
        None => String::from_str(DEFAULT_MOK_KEY_PATH),
    }
}

/// The MOK certificate path: the `BOOTCONTROL_MOK_CERT` override when set,
/// the default otherwise.
pub fn get_mok_cert_path(env_override: Option<&str>) -> (p: String)
    ensures
        p@ == match env_override {
            Some(e) => e@,
            None => DEFAULT_MOK_CERT_PATH@,
        },
{
    match env_override {
        Some(e) => String::from_str(e),
        None => String::from_str(DEFAULT_MOK_CERT_PATH),
    }
}

/// Signs UKIs with `sbsign` and requests MOK enrolment with `mokutil`.
#[derive(Debug, Clone)]
pub struct SbsignMokSigner {
    /// Explicit `sbsign` path (tests); `None` searches `PATH`.
    pub sbsign_override: Option<String>,
    /// Explicit `mokutil` path (tests); `None` searches `PATH`.
    pub mokutil_override: Option<String>,
}

/// The binary of a tool with an optional override: the override only when
/// it exists, otherwise where the tool was found on `PATH`; `ToolNotFound`
/// naming the tool when neither gives one.
pub open spec fn tool_binary(
    r: Result<String, BootControlError>,
    tool: Seq<char>,
    binary_override: Option<String>,
    probe: ToolProbe,
) -> bool {
    match crate::initramfs::resolved_binary(binary_override, probe) {
        Some(b) => r matches Ok(p) && p@ == b,
        None => r matches Err(e) && e matches BootControlError::ToolNotFound { tool: t } && t@ == tool,
    }
}

fn resolve_tool(tool: &str, binary_override: &Option<String>, probe: &ToolProbe) -> (r: Result<String, BootControlError>)
    ensures
        tool_binary(r, tool@, *binary_override, *probe),
{
    match binary_override {
        Some(p) => if probe.override_exists {
            Ok(p.clone())
        } else {
            Err(BootControlError::ToolNotFound { tool: String::from_str(tool) })
        },
        None => match &probe.on_path {
            Some(q) => Ok(q.clone()),
            None => Err(BootControlError::ToolNotFound { tool: String::from_str(tool) }),
        },
    }
}

/// The outcome of a signing tool's run: success when it exited
/// successfully; otherwise `SigningFailed` describing the spawn failure or
/// carrying the tool's standard error.
pub open spec fn signing_outcome_of(r: Result<(), BootControlError>, tool: Seq<char>, run: CommandRun) -> bool {
    match run {
        CommandRun::SpawnFailed(e) => r matches Err(x) && x matches BootControlError::SigningFailed {
            reason,
        } && reason@ == "failed to spawn "@ + tool + ": "@ + e@,
        CommandRun::Exited { success, stderr } => if success {
            r is Ok
        } else {
            r matches Err(x) && x matches BootControlError::SigningFailed { reason } && reason@
                == tool + " exited non-zero: "@ + stderr@
        },
    }
}

/// What running `sbsign` or `mokutil` means.
pub fn signing_outcome(tool: &str, run: CommandRun) -> (r: Result<(), BootControlError>)
    ensures
        signing_outcome_of(r, tool@, run),
{
    match run {
        CommandRun::SpawnFailed(e) => {
            let mut reason = String::from_str("failed to spawn ");
            reason.append(tool);
            reason.append(": ");
            reason.append(e.as_str());
            Err(BootControlError::SigningFailed { reason })
        },
        CommandRun::Exited { success, stderr } => if success {
            Ok(())
        } else {
            let mut reason = String::from_str(tool);
            reason.append(" exited non-zero: ");
            reason.append(stderr.as_str());
            Err(BootControlError::SigningFailed { reason })
        },
    }
}

impl SbsignMokSigner {
    /// The `sbsign` binary to run.
    pub fn sbsign_path(&self, probe: &ToolProbe) -> (r: Result<String, BootControlError>)
        ensures
            tool_binary(r, "sbsign"@, self.sbsign_override, *probe),
    {
        resolve_tool("sbsign", &self.sbsign_override, probe)
    }

    /// The `mokutil` binary to run.
    pub fn mokutil_path(&self, probe: &ToolProbe) -> (r: Result<String, BootControlError>)
        ensures
            tool_binary(r, "mokutil"@, self.mokutil_override, *probe),
    {
        resolve_tool("mokutil", &self.mokutil_override, probe)
    }

    /// The command that signs `uki` in place:
    /// `sbsign --key <key> --cert <cert> --output <uki> <uki>`. A missing key,
    /// then a missing certificate, is refused with `MokKeyNotFound` naming
    /// it, before `sbsign` is looked for.
    pub fn sign_uki_command(
        &self,
        uki: &str,
        key: &str,
        cert: &str,
        key_exists: bool,
        cert_exists: bool,
        probe: &ToolProbe,
    ) -> (r: Result<ToolCommand, BootControlError>)
        ensures
            !key_exists ==> (r matches Err(e) && e matches BootControlError::MokKeyNotFound { path }
                && path@ == key@),
            key_exists && !cert_exists ==> (r matches Err(e) && e matches BootControlError::MokKeyNotFound {
                path,
            } && path@ == cert@),
            key_exists && cert_exists ==> match crate::initramfs::resolved_binary(self.sbsign_override, *probe) {
                Some(b) => r matches Ok(c) && c.binary@ == b && texts(c.args@) == seq![
                    "--key"@,
                    key@,
                    "--cert"@,
                    cert@,
                    "--output"@,
                    uki@,
                    uki@,
                ],
                None => r matches Err(e) && e matches BootControlError::ToolNotFound { tool } && tool@
                    == "sbsign"@,
            },
    {
        if !key_exists {
            return Err(BootControlError::MokKeyNotFound { path: String::from_str(key) });
        }
        if !cert_exists {
            return Err(BootControlError::MokKeyNotFound { path: String::from_str(cert) });
        }
        let bin = match self.sbsign_path(probe) {
            Ok(b) => b,
            Err(e) => return Err(e),
        };
        let args = vec![
            String::from_str("--key"),
            String::from_str(key),
            String::from_str("--cert"),
            String::from_str(cert),
            String::from_str("--output"),
            String::from_str(uki),
            String::from_str(uki),
        ];
        assert(texts(args@) =~= seq!["--key"@, key@, "--cert"@, cert@, "--output"@, uki@, uki@]);
        Ok(ToolCommand { binary: bin, args })
    }

    /// The command that requests MOK enrolment of `cert`:
    /// `mokutil --import <cert>`.
    pub fn enrollment_request_command(&self, cert: &str, probe: &ToolProbe) -> (r: Result<ToolCommand, BootControlError>)
        ensures
            match crate::initramfs::resolved_binary(self.mokutil_override, *probe) {
                Some(b) => r matches Ok(c) && c.binary@ == b && texts(c.args@) == seq!["--import"@, cert@],
                None => r matches Err(e) && e matches BootControlError::ToolNotFound { tool } && tool@
                    == "mokutil"@,
            },
    {
        let bin = match self.mokutil_path(probe) {
            Ok(b) => b,
            Err(e) => return Err(e),
        };
        let args = vec![String::from_str("--import"), String::from_str(cert)];
        assert(texts(args@) =~= seq!["--import"@, cert@]);
        Ok(ToolCommand { binary: bin, args })
    }
}

/// The key pair must exist before signing: a missing key, then a missing
/// certificate, is refused with `MokKeyNotFound` naming it.
pub fn check_key_pair(key: &str, cert: &str, key_exists: bool, cert_exists: bool) -> (r: Result<(), BootControlError>)
    ensures
        key_exists && cert_exists <==> r is Ok,
        !key_exists ==> (r matches Err(e) && e matches BootControlError::MokKeyNotFound { path } && path@
            == key@),
        key_exists && !cert_exists ==> (r matches Err(e) && e matches BootControlError::MokKeyNotFound {
            path,
        } && path@ == cert@),
{
    if !key_exists {
        return Err(BootControlError::MokKeyNotFound { path: String::from_str(key) });
    }
    if !cert_exists {
        return Err(BootControlError::MokKeyNotFound { path: String::from_str(cert) });
    }
    Ok(())
}

/// Signing `uki` with the default key pair (`key`, `cert`): a missing key,
/// then a missing certificate, is refused with `MokKeyNotFound`, a missing
/// `sbsign` with `ToolNotFound`; otherwise `run` is what running the
/// command of [`SbsignMokSigner::sign_uki_command`] gave, and the result is
/// its outcome: `SigningFailed` when `sbsign` could not start or exited
/// non-zero.
pub fn sign_with_default_keys(
    signer: &SbsignMokSigner,
    uki: &str,
    key: &str,
    cert: &str,
    key_exists: bool,
    cert_exists: bool,
    probe: &ToolProbe,
    run: CommandRun,
) -> (r: Result<(), BootControlError>)
    ensures
        !key_exists ==> (r matches Err(e) && e matches BootControlError::MokKeyNotFound { path } && path@
            == key@),
        key_exists && !cert_exists ==> (r matches Err(e) && e matches BootControlError::MokKeyNotFound {
            path,
        } && path@ == cert@),
        key_exists && cert_exists ==> match crate::initramfs::resolved_binary(signer.sbsign_override, *probe) {
            Some(_) => signing_outcome_of(r, "sbsign"@, run),
            None => r matches Err(e) && e matches BootControlError::ToolNotFound { tool } && tool@ == "sbsign"@,
        },
{
    match signer.sign_uki_command(uki, key, cert, key_exists, cert_exists, probe) {
        Ok(_) => signing_outcome("sbsign", run),
        Err(e) => Err(e),
    }
}

// ── NVRAM backup ──────────────────────────────────────────────────────────

/// Default efivarfs mount point read by the backup.
pub const DEFAULT_EFIVARS_DIR: &'static str = "/sys/firmware/efi/efivars";

/// Default directory the backup is written to.
pub const DEFAULT_BACKUP_DIR: &'static str = "/var/lib/bootcontrol/certs";

/// A Secure Boot variable: `db`, `KEK` or `PK` of any vendor.
pub open spec fn is_secureboot_var(name: Seq<char>) -> bool {
    starts_with_seq(name, "db-"@) || starts_with_seq(name, "KEK-"@) || starts_with_seq(name, "PK-"@)
}

/// Whether an efivarfs file holds a Secure Boot variable.
pub fn is_secureboot_var_name(name: &str) -> (r: bool)
    ensures
        r == is_secureboot_var(name@),
{
    let n = chars_of(name);
    let a = chars_of("db-");
    let b = chars_of("KEK-");
    let c = chars_of("PK-");
    starts_with_exec(n.as_slice(), a.as_slice()) || starts_with_exec(n.as_slice(), b.as_slice())
        || starts_with_exec(n.as_slice(), c.as_slice())
}

/// The file a backed-up variable is written to, inside the backup
/// directory.
pub fn backup_file_name(name: &str) -> (f: String)
    ensures
        f@ == name@ + ".efivar"@,
{
    let mut f = String::from_str(name);
    f.append(".efivar");
    f
}

/// One entry of the efivarfs listing: reading the entry failed, or it has
/// a name (and, for a Secure Boot variable, the result of reading it).
#[derive(Debug, Clone)]
pub enum VarListing {
    EntryFailed(String),
    Entry { name: String, contents: Option<Result<Vec<u8>, String>> },
}

/// `r` is the refusal of the listing item `item`, if it fails the backup.
pub open spec fn listing_fails(item: VarListing) -> bool {
    match item {
        VarListing::EntryFailed(_) => true,
        VarListing::Entry { name, contents } => is_secureboot_var(name@) && contents matches Some(Err(_)),
    }
}

/// The failure the listing item `item` causes.
pub open spec fn listing_failure(item: VarListing, e: BootControlError) -> bool {
    match item {
        VarListing::EntryFailed(m) => e matches BootControlError::NvramBackupFailed { reason } && reason@
            == "failed to read directory entry: "@ + m@,
        VarListing::Entry { name, contents } => match contents {
            Some(Err(m)) => e matches BootControlError::NvramBackupFailed { reason } && reason@
                == "failed to read variable '"@ + name@ + "': "@ + m@,
            _ => false,
        },
    }
}

/// The Secure Boot variables of a listing, with their contents, in order.
pub open spec fn selected_vars(items: Seq<VarListing>, n: int) -> Seq<(Seq<char>, Seq<u8>)>
    decreases n,
{
    if n <= 0 {
        Seq::empty()
    } else {
        let rest = selected_vars(items, n - 1);
        match items[n - 1] {
            VarListing::Entry { name, contents } => if is_secureboot_var(name@) {
                match contents {
                    Some(Ok(c)) => rest.push((name@, c@)),
                    _ => rest,
                }
            } else {
                rest
            },
            VarListing::EntryFailed(_) => rest,
        }
    }
}

/// The variables to back up, from the efivarfs listing (`None` when the
/// directory does not exist, `Err` when it cannot be listed): every Secure
/// Boot variable with its contents, in listing order. The first failing
/// entry, in order, refuses the backup; so does a listing without any
/// Secure Boot variable. Every refusal is `NvramBackupFailed`.
pub fn select_backup_vars(
    efivars_dir: &str,
    listing: Option<Result<Vec<VarListing>, String>>,
) -> (r: Result<Vec<(String, Vec<u8>)>, BootControlError>)
    requires
        listing matches Some(Ok(items)) ==> forall|i: int|
            0 <= i < items@.len() ==> ((#[trigger] items@[i]) matches VarListing::Entry { name, contents }
                ==> (is_secureboot_var(name@) <==> contents is Some)),
    ensures
        match listing {
            None => r matches Err(e) && e matches BootControlError::NvramBackupFailed { reason } && reason@
                == "efivars directory '"@ + efivars_dir@ + "' does not exist"@,
            Some(Err(m)) => r matches Err(e) && e matches BootControlError::NvramBackupFailed { reason }
                && reason@ == "failed to read efivars directory '"@ + efivars_dir@ + "': "@ + m@,
            Some(Ok(items)) => match r {
                Ok(v) => (forall|i: int| 0 <= i < items@.len() ==> !listing_fails(#[trigger] items@[i]))
                    && v@.map_values(|p: (String, Vec<u8>)| (p.0@, p.1@)) == selected_vars(
                    items@,
                    items@.len() as int,
                ) && v@.len() > 0,
                Err(e) => (exists|k: int|
                    0 <= k < items@.len() && listing_fails(items@[k]) && listing_failure(items@[k], e)
                        && forall|j: int| 0 <= j < k ==> !listing_fails(#[trigger] items@[j])) || (
                (forall|i: int| 0 <= i < items@.len() ==> !listing_fails(#[trigger] items@[i]))
                    && selected_vars(items@, items@.len() as int).len() == 0 && (e matches BootControlError::NvramBackupFailed {
                    reason,
                } && reason@ == "no Secure Boot variables found"@)),
            },
        },
{
    let ghost original = listing;
    let items = match listing {
        None => {
            let mut reason = String::from_str("efivars directory '");
            reason.append(efivars_dir);
            reason.append("' does not exist");
            return Err(BootControlError::NvramBackupFailed { reason });
        },
        Some(Err(m)) => {
            let mut reason = String::from_str("failed to read efivars directory '");
            reason.append(efivars_dir);
            reason.append("': ");
            reason.append(m.as_str());
            return Err(BootControlError::NvramBackupFailed { reason });
        },
        Some(Ok(items)) => items,
    };
    let mut out: Vec<(String, Vec<u8>)> = Vec::new();
    let mut i: usize = 0;
    while i < items.len()
        invariant
            i <= items@.len(),
            original == Some(Ok::<Vec<VarListing>, String>(items)),
            original == listing,
            forall|k: int|
                0 <= k < items@.len() ==> ((#[trigger] items@[k]) matches VarListing::Entry { name, contents }
                    ==> (is_secureboot_var(name@) <==> contents is Some)),
            forall|j: int| 0 <= j < i ==> !listing_fails(#[trigger] items@[j]),
            out@.map_values(|p: (String, Vec<u8>)| (p.0@, p.1@)) == selected_vars(items@, i as int),
        decreases items@.len() - i,
    {
        match &items[i] {
            VarListing::EntryFailed(m) => {
                let mut reason = String::from_str("failed to read directory entry: ");
                reason.append(m.as_str());
                let e = BootControlError::NvramBackupFailed { reason };
                assert(listing_fails(items@[i as int]) && listing_failure(items@[i as int], e));
                assert(exists|k: int|
                    0 <= k < items@.len() && listing_fails(items@[k]) && listing_failure(items@[k], e)
                        && forall|j: int| 0 <= j < k ==> !listing_fails(#[trigger] items@[j]));
                return Err(e);
            },
            VarListing::Entry { name, contents } => {
                if is_secureboot_var_name(name.as_str()) {
                    match contents {
                        None => {
                            assert(false);
                        },
                        Some(Err(m)) => {
                            let mut reason = String::from_str("failed to read variable '");
                            reason.append(name.as_str());
                            reason.append("': ");
                            reason.append(m.as_str());
                            let e = BootControlError::NvramBackupFailed { reason };
                            assert(listing_fails(items@[i as int]) && listing_failure(items@[i as int], e));
                            assert(exists|k: int|
                                0 <= k < items@.len() && listing_fails(items@[k]) && listing_failure(items@[k], e)
                                    && forall|j: int| 0 <= j < k ==> !listing_fails(#[trigger] items@[j]));
                            return Err(e);
                        },
                        Some(Ok(c)) => {
                            let ghost before = out@;
                            out.push((name.clone(), c.clone()));
                            assert(out@.map_values(|p: (String, Vec<u8>)| (p.0@, p.1@)) =~= before.map_values(
                                |p: (String, Vec<u8>)| (p.0@, p.1@),
                            ).push((name@, c@)));
                        },
                    }
                }
            },
        }
        i = i + 1;
    }
    if out.len() == 0 {
        return Err(BootControlError::NvramBackupFailed { reason: String::from_str("no Secure Boot variables found") });
    }
    Ok(out)
}

/// The files of a completed NVRAM backup.
#[derive(Debug, Clone)]
pub struct NvramBackup {
    /// The backup files, one per variable.
    pub files: Vec<String>,
    /// When the backup was taken, in seconds since the Unix epoch.
    pub timestamp_unix: i64,
}

/// `e` refuses a backup whose file `path` was found as `size`.
pub open spec fn backup_file_failure(path: Seq<char>, size: Result<u64, String>, e: BootControlError) -> bool {
    match size {
        Err(m) => e matches BootControlError::NvramBackupFailed { reason } && reason@ == "backup file '"@
            + path + "' is not accessible: "@ + m@,
        Ok(n) => n == 0 && (e matches BootControlError::NvramBackupFailed { reason } && reason@
            == "backup file '"@ + path + "' is empty"@),
    }
}

/// A backup file is sound: it could be inspected and is not empty.
pub open spec fn backup_file_ok(size: Result<u64, String>) -> bool {
    size matches Ok(n) && n > 0
}

impl NvramBackup {
    /// Check the backup from what inspecting its files found (`sizes[i]` for
    /// `files[i]`): every file must be accessible and non-empty; the first
    /// that is not refuses the backup.
    pub fn verify(&self, sizes: &[Result<u64, String>]) -> (r: Result<(), BootControlError>)
        requires
            sizes@.len() == self.files@.len(),
        ensures
            r is Ok <==> forall|i: int| 0 <= i < sizes@.len() ==> backup_file_ok(#[trigger] sizes@[i]),
            r matches Err(e) ==> exists|k: int|
                0 <= k < sizes@.len() && !backup_file_ok(sizes@[k]) && backup_file_failure(
                    self.files@[k]@,
                    sizes@[k],
                    e,
                ) && forall|j: int| 0 <= j < k ==> backup_file_ok(#[trigger] sizes@[j]),
    {
        let mut i: usize = 0;
        while i < sizes.len()
            invariant
                i <= sizes@.len(),
                sizes@.len() == self.files@.len(),
                forall|j: int| 0 <= j < i ==> backup_file_ok(#[trigger] sizes@[j]),
            decreases sizes@.len() - i,
        {
            match &sizes[i] {
                Err(m) => {
                    let mut reason = String::from_str("backup file '");
                    reason.append(self.files[i].as_str());
                    reason.append("' is not accessible: ");
                    reason.append(m.as_str());
                    let e = BootControlError::NvramBackupFailed { reason };
                    assert(backup_file_failure(self.files@[i as int]@, sizes@[i as int], e));
                    return Err(e);
                },
                Ok(n) => {
                    if *n == 0 {
                        let mut reason = String::from_str("backup file '");
                        reason.append(self.files[i].as_str());
                        reason.append("' is empty");
                        let e = BootControlError::NvramBackupFailed { reason };
                        assert(backup_file_failure(self.files@[i as int]@, sizes@[i as int], e));
                        return Err(e);
                    }
                },
            }
            i = i + 1;
        }
        Ok(())
    }
}

// ── Custom key set ────────────────────────────────────────────────────────

/// Default directory of a generated key set.
pub const DEFAULT_KEYSET_DIR: &'static str = "/var/lib/bootcontrol/paranoia-keys";

/// `name` inside the directory `dir` (a relative name joined as
/// `Path::join` does).
pub open spec fn joined(dir: Seq<char>, name: Seq<char>) -> Seq<char> {
    if dir.len() == 0 {
        name
    } else if dir.last() == '/' {
        dir + name
    } else {
        dir + seq!['/'] + name
    }
}

/// Join a relative name to a directory.
pub fn join_path(dir: &str, name: &str) -> (p: String)
    ensures
        p@ == joined(dir@, name@),
{
    let d = chars_of(dir);
    let mut p = String::from_str(dir);
    if d.len() > 0 && d[d.len() - 1] != '/' {
        p.append("/");
        proof {
            reveal_strlit("/");
        }
    }
    p.append(name);
    assert(p@ =~= joined(dir@, name@));
    p
}

/// The generated Secure Boot key set.
#[derive(Debug, Clone, PartialEq, Eq)]
pub struct ParanoiaKeySet {
    pub pk_cert: String,
    pub kek_cert: String,
    pub db_cert: String,
    pub pk_key: String,
    pub kek_key: String,
    pub db_key: String,
}

/// The `openssl` binary: the override when given and it exists, otherwise
/// where `openssl` was found on `PATH`; `ToolNotFound` otherwise.
pub fn openssl_binary(openssl_override: Option<&str>, override_exists: bool, on_path: Option<&str>) -> (r: Result<String, BootControlError>)
    ensures
        match openssl_override {
            Some(o) if override_exists => r matches Ok(b) && b@ == o@,
            _ => match on_path {
                Some(q) => r matches Ok(b) && b@ == q@,
                None => r matches Err(e) && e matches BootControlError::ToolNotFound { tool } && tool@
                    == "openssl"@,
            },
        },
{
    if let Some(o) = openssl_override {
        if override_exists {
            return Ok(String::from_str(o));
        }
    }
    match on_path {
        Some(q) => Ok(String::from_str(q)),
        None => Err(BootControlError::ToolNotFound { tool: String::from_str("openssl") }),
    }
}

/// The arguments of the `openssl` run that creates the key pair `name`.
pub open spec fn keygen_args(dir: Seq<char>, name: Seq<char>) -> Seq<Seq<char>> {
    seq![
        "req"@,
        "-newkey"@,
        "rsa:4096"@,
        "-nodes"@,
        "-keyout"@,
        joined(dir, name + ".key"@),
        "-x509"@,
        "-days"@,
        "3650"@,
        "-subj"@,
        "/CN=BootControl "@ + name + "/"@,
        "-out"@,
        joined(dir, name + ".crt"@),
    ]
}

pub(crate) fn keygen_command(openssl: &str, dir: &str, name: &str) -> (c: ToolCommand)
    ensures
        c.binary@ == openssl@,
        texts(c.args@) == keygen_args(dir@, name@),
{
    let mut key_file = String::from_str(name);
    key_file.append(".key");
    let mut crt_file = String::from_str(name);
    crt_file.append(".crt");
    let mut subj = String::from_str("/CN=BootControl ");
    subj.append(name);
    subj.append("/");
    let args = vec![
        String::from_str("req"),
        String::from_str("-newkey"),
        String::from_str("rsa:4096"),
        String::from_str("-nodes"),
        String::from_str("-keyout"),
        join_path(dir, key_file.as_str()),
        String::from_str("-x509"),
        String::from_str("-days"),
        String::from_str("3650"),
        String::from_str("-subj"),
        subj,
        String::from_str("-out"),
        join_path(dir, crt_file.as_str()),
    ];
    assert(texts(args@) =~= keygen_args(dir@, name@));
    ToolCommand { binary: String::from_str(openssl), args }
}

/// The `openssl` runs that generate the key set in `dir`, in order: the
/// `PK`, `KEK` and `db` key pairs, each a 4096-bit RSA key and a
/// self-signed certificate valid for ten years.
pub fn keyset_commands(openssl: &str, dir: &str) -> (cs: Vec<ToolCommand>)
    ensures
        cs@.len() == 3,
        forall|i: int| 0 <= i < 3 ==> (#[trigger] cs@[i]).binary@ == openssl@,
        texts(cs@[0].args@) == keygen_args(dir@, "PK"@),
        texts(cs@[1].args@) == keygen_args(dir@, "KEK"@),
        texts(cs@[2].args@) == keygen_args(dir@, "db"@),
{
    vec![keygen_command(openssl, dir, "PK"), keygen_command(openssl, dir, "KEK"), keygen_command(openssl, dir, "db")]
}

/// The key set generated in `dir`.
pub fn keyset_in(dir: &str) -> (k: ParanoiaKeySet)
    ensures
        k.pk_cert@ == joined(dir@, "PK.crt"@),
        k.kek_cert@ == joined(dir@, "KEK.crt"@),
        k.db_cert@ == joined(dir@, "db.crt"@),
        k.pk_key@ == joined(dir@, "PK.key"@),
        k.kek_key@ == joined(dir@, "KEK.key"@),
        k.db_key@ == joined(dir@, "db.key"@),
{
    ParanoiaKeySet {
        pk_cert: join_path(dir, "PK.crt"),
        kek_cert: join_path(dir, "KEK.crt"),
        db_cert: join_path(dir, "db.crt"),
        pk_key: join_path(dir, "PK.key"),
        kek_key: join_path(dir, "KEK.key"),
        db_key: join_path(dir, "db.key"),
    }
}

/// What a key-generation tool's run means: success when it exited
/// successfully; otherwise `KeyGenerationFailed`, describing the spawn
/// failure or carrying the tool's standard error.
pub fn keygen_outcome(tool: &str, run: CommandRun) -> (r: Result<(), BootControlError>)
    ensures
        match run {
            CommandRun::SpawnFailed(e) => r matches Err(x) && x matches BootControlError::KeyGenerationFailed {
                reason,
            } && reason@ == "Failed to execute "@ + tool@ + ": "@ + e@,
            CommandRun::Exited { success, stderr } => if success {
                r is Ok
            } else {
                r matches Err(x) && x matches BootControlError::KeyGenerationFailed { reason } && reason@
                    == stderr@
            },
        },
{
    match run {
        CommandRun::SpawnFailed(e) => {
            let mut reason = String::from_str("Failed to execute ");
            reason.append(tool);
            reason.append(": ");
            reason.append(e.as_str());
            Err(BootControlError::KeyGenerationFailed { reason })
        },
        CommandRun::Exited { success, stderr } => if success {
            Ok(())
        } else {
            Err(BootControlError::KeyGenerationFailed { reason: stderr })
        },
    }
}

/// The commands that merge the key set's `db` certificate into a signed
/// `db` update, in order, and the update they produce:
/// `cert-to-efi-sig-list <db.crt> <dir>/db.esl`, then
/// `sign-efi-sig-list -k <KEK.key> -c <KEK.crt> db <dir>/db.esl <dir>/db-merged.auth`.
pub fn merge_commands(keyset: &ParanoiaKeySet, dir: &str, cert_to_efi: &str, sign_efi: &str) -> (r: (Vec<ToolCommand>, String))
    ensures
        r.0@.len() == 2,
        r.0@[0].binary@ == cert_to_efi@,
        texts(r.0@[0].args@) == seq![keyset.db_cert@, joined(dir@, "db.esl"@)],
        r.0@[1].binary@ == sign_efi@,
        texts(r.0@[1].args@) == seq![
            "-k"@,
            keyset.kek_key@,
            "-c"@,
            keyset.kek_cert@,
            "db"@,
            joined(dir@, "db.esl"@),
            joined(dir@, "db-merged.auth"@),
        ],
        r.1@ == joined(dir@, "db-merged.auth"@),
{
    let esl = join_path(dir, "db.esl");
    let auth = join_path(dir, "db-merged.auth");
    let a1 = vec![keyset.db_cert.clone(), esl.clone()];
    assert(texts(a1@) =~= seq![keyset.db_cert@, joined(dir@, "db.esl"@)]);
    let a2 = vec![
        String::from_str("-k"),
        keyset.kek_key.clone(),
        String::from_str("-c"),
        keyset.kek_cert.clone(),
        String::from_str("db"),
        esl,
        auth.clone(),
    ];
    assert(texts(a2@) =~= seq![
        "-k"@,
        keyset.kek_key@,
        "-c"@,
        keyset.kek_cert@,
        "db"@,
        joined(dir@, "db.esl"@),
        joined(dir@, "db-merged.auth"@),
    ]);
    let c1 = ToolCommand { binary: String::from_str(cert_to_efi), args: a1 };
    let c2 = ToolCommand { binary: String::from_str(sign_efi), args: a2 };
    (vec![c1, c2], auth)
}

/// An efitools binary for the merge: `<override dir>/<name>` when an
/// override directory is given and that file exists, otherwise where
/// `name` was found on `PATH`; `ToolNotFound` naming it otherwise.
pub fn efitools_binary(
    tool_override: Option<&str>,
    name: &str,
    in_override_exists: bool,
    on_path: Option<&str>,
) -> (r: Result<String, BootControlError>)
    ensures
        match tool_override {
            Some(d) if in_override_exists => r matches Ok(b) && b@ == joined(d@, name@),
            _ => match on_path {
                Some(q) => r matches Ok(b) && b@ == q@,
                None => r matches Err(e) && e matches BootControlError::ToolNotFound { tool } && tool@
                    == name@,
            },
        },
{
    if let Some(d) = tool_override {
        if in_override_exists {
            return Ok(join_path(d, name));
        }
    }
    match on_path {
        Some(q) => Ok(String::from_str(q)),
        None => Err(BootControlError::ToolNotFound { tool: String::from_str(name) }),
    }
}

} // verus!
