//! Error values of the library and their mapping onto the structured D-Bus
//! error names of `org.bootcontrol.Error.*`.

use vstd::prelude::*;
use vstd::string::StringExecFns;

verus! {

/// Every way a BootControl operation can be refused or fail.
#[derive(Debug, Clone, PartialEq, Eq)]
pub enum BootControlError {
    /// The caller's ETag no longer matches the file on disk.
    StateMismatch { expected: String, actual: String },
    /// The requested key or parameter is not present.
    KeyNotFound { key: String },
    /// A value cannot be accepted for the given key.
    MalformedValue { key: String, reason: String },
    /// The file holds shell constructs the parser refuses to edit.
    ComplexBashDetected { offender: String },
    /// Polkit refused the operation.
    PolkitDenied,
    /// Reading or writing a boot file failed.
    EspScanFailed { reason: String },
    /// The payload holds a blacklisted kernel parameter.
    SecurityPolicyViolation { reason: String },
    /// Another process holds the exclusive lock on `path`.
    ConcurrentModification { path: String },
    /// A required external tool is not installed.
    ToolNotFound { tool: String },
    /// Backing up EFI variables failed.
    NvramBackupFailed { reason: String },
    /// The MOK key or certificate is missing at `path`.
    MokKeyNotFound { path: String },
    /// Signing or enrolment failed.
    SigningFailed { reason: String },
    /// Key generation failed.
    KeyGenerationFailed { reason: String },
    /// Writing an EFI variable failed.
    NvramWriteFailed { reason: String },
    /// The host is an immutable distribution that refuses in-place writes.
    ImmutableDistroDetected { distro: String },
}

/// The human-readable description of an error.
pub open spec fn error_message(e: BootControlError) -> Seq<char> {
    match e {
        BootControlError::StateMismatch { expected, actual } => "ETag mismatch: expected "@
            + expected@ + ", found "@ + actual@,
        BootControlError::KeyNotFound { key } => "key not found: "@ + key@,
        BootControlError::MalformedValue { key, reason } => "malformed value for "@ + key@
            + ": "@ + reason@,
        BootControlError::ComplexBashDetected { offender } =>
            "unsupported shell construct: "@ + offender@,
        BootControlError::PolkitDenied => "authorization denied by polkit"@,
        BootControlError::EspScanFailed { reason } => "boot file access failed: "@ + reason@,
        BootControlError::SecurityPolicyViolation { reason } => "security policy violation: "@
            + reason@,
        BootControlError::ConcurrentModification { path } => "file is locked by another process: "@
            + path@,
        BootControlError::ToolNotFound { tool } => "required tool not found: "@ + tool@,
        BootControlError::NvramBackupFailed { reason } => "NVRAM backup failed: "@ + reason@,
        BootControlError::MokKeyNotFound { path } => "MOK key not found: "@ + path@,
        BootControlError::SigningFailed { reason } => "signing failed: "@ + reason@,
        BootControlError::KeyGenerationFailed { reason } => "key generation failed: "@ + reason@,
        BootControlError::NvramWriteFailed { reason } => "NVRAM write failed: "@ + reason@,
        BootControlError::ImmutableDistroDetected { distro } =>
            "immutable distribution detected: "@ + distro@,
    }
}

fn join2(a: &str, b: &String) -> (s: String)
    ensures
        s@ == a@ + b@,
{
    let mut s = String::from_str(a);
    s.append(b.as_str());
    s
}

fn join4(a: &str, b: &String, c: &str, d: &String) -> (s: String)
    ensures
        s@ == a@ + b@ + c@ + d@,
{
    let mut s = String::from_str(a);
    s.append(b.as_str());
    s.append(c);
    s.append(d.as_str());
    s
}

impl BootControlError {
    /// The human-readable description of this error.
    pub fn message(&self) -> (m: String)
        ensures
            m@ == error_message(*self),
    {
        match self {
            BootControlError::StateMismatch { expected, actual } => join4(
                "ETag mismatch: expected ",
                expected,
                ", found ",
                actual,
            ),
            BootControlError::KeyNotFound { key } => join2("key not found: ", key),
            BootControlError::MalformedValue { key, reason } => join4(
                "malformed value for ",
                key,
                ": ",
                reason,
            ),
            BootControlError::ComplexBashDetected { offender } => join2(
                "unsupported shell construct: ",
                offender,
            ),
            BootControlError::PolkitDenied => String::from_str("authorization denied by polkit"),
            BootControlError::EspScanFailed { reason } => join2(
                "boot file access failed: ",
                reason,
            ),
            BootControlError::SecurityPolicyViolation { reason } => join2(
                "security policy violation: ",
                reason,
            ),
            BootControlError::ConcurrentModification { path } => join2(
                "file is locked by another process: ",
                path,
            ),
            BootControlError::ToolNotFound { tool } => join2("required tool not found: ", tool),
            BootControlError::NvramBackupFailed { reason } => join2("NVRAM backup failed: ", reason),
            BootControlError::MokKeyNotFound { path } => join2("MOK key not found: ", path),
            BootControlError::SigningFailed { reason } => join2("signing failed: ", reason),
            BootControlError::KeyGenerationFailed { reason } => join2(
                "key generation failed: ",
                reason,
            ),
            BootControlError::NvramWriteFailed { reason } => join2("NVRAM write failed: ", reason),
            BootControlError::ImmutableDistroDetected { distro } => join2(
                "immutable distribution detected: ",
                distro,
            ),
        }
    }
}

/// Two errors of the same variant carrying the same texts.
pub open spec fn same_error(a: BootControlError, b: BootControlError) -> bool {
    error_message(a) == error_message(b) && match (a, b) {
        (BootControlError::StateMismatch { .. }, BootControlError::StateMismatch { .. }) => true,
        (BootControlError::KeyNotFound { .. }, BootControlError::KeyNotFound { .. }) => true,
        (BootControlError::MalformedValue { .. }, BootControlError::MalformedValue { .. }) => true,
        (BootControlError::ComplexBashDetected { .. }, BootControlError::ComplexBashDetected { .. }) => true,
        (BootControlError::PolkitDenied, BootControlError::PolkitDenied) => true,
        (BootControlError::EspScanFailed { .. }, BootControlError::EspScanFailed { .. }) => true,
        (BootControlError::SecurityPolicyViolation { .. }, BootControlError::SecurityPolicyViolation { .. }) => true,
        (BootControlError::ConcurrentModification { .. }, BootControlError::ConcurrentModification { .. }) => true,
        (BootControlError::ToolNotFound { .. }, BootControlError::ToolNotFound { .. }) => true,
        (BootControlError::NvramBackupFailed { .. }, BootControlError::NvramBackupFailed { .. }) => true,
        (BootControlError::MokKeyNotFound { .. }, BootControlError::MokKeyNotFound { .. }) => true,
        (BootControlError::SigningFailed { .. }, BootControlError::SigningFailed { .. }) => true,
        (BootControlError::KeyGenerationFailed { .. }, BootControlError::KeyGenerationFailed { .. }) => true,
        (BootControlError::NvramWriteFailed { .. }, BootControlError::NvramWriteFailed { .. }) => true,
        (BootControlError::ImmutableDistroDetected { .. }, BootControlError::ImmutableDistroDetected { .. }) => true,
        _ => false,
    }
}

fn copy_text(s: &String) -> (r: String)
    ensures
        r@ == s@,
{
    s.clone()
}

/// A copy of an error: the same variant carrying the same texts.
pub fn copy_error(e: &BootControlError) -> (r: BootControlError)
    ensures
        same_error(r, *e),
{
    match e {
        BootControlError::StateMismatch { expected, actual } => BootControlError::StateMismatch {
            expected: copy_text(expected),
            actual: copy_text(actual),
        },
        BootControlError::KeyNotFound { key } => BootControlError::KeyNotFound { key: copy_text(key) },
        BootControlError::MalformedValue { key, reason } => BootControlError::MalformedValue {
            key: copy_text(key),
            reason: copy_text(reason),
        },
        BootControlError::ComplexBashDetected { offender } => BootControlError::ComplexBashDetected {
            offender: copy_text(offender),
        },
        BootControlError::PolkitDenied => BootControlError::PolkitDenied,
        BootControlError::EspScanFailed { reason } => BootControlError::EspScanFailed {
            reason: copy_text(reason),
        },
        BootControlError::SecurityPolicyViolation { reason } => BootControlError::SecurityPolicyViolation {
            reason: copy_text(reason),
        },
        BootControlError::ConcurrentModification { path } => BootControlError::ConcurrentModification {
            path: copy_text(path),
        },
        BootControlError::ToolNotFound { tool } => BootControlError::ToolNotFound { tool: copy_text(tool) },
        BootControlError::NvramBackupFailed { reason } => BootControlError::NvramBackupFailed {
            reason: copy_text(reason),
        },
        BootControlError::MokKeyNotFound { path } => BootControlError::MokKeyNotFound { path: copy_text(path) },
        BootControlError::SigningFailed { reason } => BootControlError::SigningFailed {
            reason: copy_text(reason),
        },
        BootControlError::KeyGenerationFailed { reason } => BootControlError::KeyGenerationFailed {
            reason: copy_text(reason),
        },
        BootControlError::NvramWriteFailed { reason } => BootControlError::NvramWriteFailed {
            reason: copy_text(reason),
        },
        BootControlError::ImmutableDistroDetected { distro } => BootControlError::ImmutableDistroDetected {
            distro: copy_text(distro),
        },
    }
}

/// Structured error returned over D-Bus; the variant becomes the error name
/// `org.bootcontrol.Error.<Variant>`, the string is the message.
#[derive(Debug, Clone, PartialEq, Eq)]
pub enum DaemonError {
    StateMismatch(String),
    KeyNotFound(String),
    MalformedValue(String),
    ComplexBashDetected(String),
    PolkitDenied(String),
    EspScanFailed(String),
    SecurityPolicyViolation(String),
    ConcurrentModification(String),
    ToolNotFound(String),
    NvramBackupFailed(String),
    MokKeyNotFound(String),
    SigningFailed(String),
    KeyGenerationFailed(String),
    NvramWriteFailed(String),
    SnapshotNotFound(String),
    SnapshotCorrupt(String),
    SnapshotFailed(String),
    /// The host is an immutable distribution that refuses in-place writes.
    ImmutableDistroDetected(String),
    /// Catch-all for errors without a dedicated D-Bus name.
    Failed(String),
}

/// The message a D-Bus error carries.
pub open spec fn daemon_message(d: DaemonError) -> Seq<char> {
    match d {
        DaemonError::StateMismatch(m) => m@,
        DaemonError::KeyNotFound(m) => m@,
        DaemonError::MalformedValue(m) => m@,
        DaemonError::ComplexBashDetected(m) => m@,
        DaemonError::PolkitDenied(m) => m@,
        DaemonError::EspScanFailed(m) => m@,
        DaemonError::SecurityPolicyViolation(m) => m@,
        DaemonError::ConcurrentModification(m) => m@,
        DaemonError::ToolNotFound(m) => m@,
        DaemonError::NvramBackupFailed(m) => m@,
        DaemonError::MokKeyNotFound(m) => m@,
        DaemonError::SigningFailed(m) => m@,
        DaemonError::KeyGenerationFailed(m) => m@,
        DaemonError::NvramWriteFailed(m) => m@,
        DaemonError::SnapshotNotFound(m) => m@,
        DaemonError::SnapshotCorrupt(m) => m@,
        DaemonError::SnapshotFailed(m) => m@,
        DaemonError::ImmutableDistroDetected(m) => m@,
        DaemonError::Failed(m) => m@,
    }
}

/// The name of a D-Bus error within `org.bootcontrol.Error`.
pub open spec fn daemon_variant(d: DaemonError) -> Seq<char> {
    match d {
        DaemonError::StateMismatch(_) => "StateMismatch"@,
        DaemonError::KeyNotFound(_) => "KeyNotFound"@,
        DaemonError::MalformedValue(_) => "MalformedValue"@,
        DaemonError::ComplexBashDetected(_) => "ComplexBashDetected"@,
        DaemonError::PolkitDenied(_) => "PolkitDenied"@,
        DaemonError::EspScanFailed(_) => "EspScanFailed"@,
        DaemonError::SecurityPolicyViolation(_) => "SecurityPolicyViolation"@,
        DaemonError::ConcurrentModification(_) => "ConcurrentModification"@,
        DaemonError::ToolNotFound(_) => "ToolNotFound"@,
        DaemonError::NvramBackupFailed(_) => "NvramBackupFailed"@,
        DaemonError::MokKeyNotFound(_) => "MokKeyNotFound"@,
        DaemonError::SigningFailed(_) => "SigningFailed"@,
        DaemonError::KeyGenerationFailed(_) => "KeyGenerationFailed"@,
        DaemonError::NvramWriteFailed(_) => "NvramWriteFailed"@,
        DaemonError::SnapshotNotFound(_) => "SnapshotNotFound"@,
        DaemonError::SnapshotCorrupt(_) => "SnapshotCorrupt"@,
        DaemonError::SnapshotFailed(_) => "SnapshotFailed"@,
        DaemonError::ImmutableDistroDetected(_) => "ImmutableDistroDetected"@,
        DaemonError::Failed(_) => "Failed"@,
    }
}

/// How a D-Bus error reads as text: its full name, then its message.
pub open spec fn daemon_error_text(d: DaemonError) -> Seq<char> {
    "org.bootcontrol.Error."@ + daemon_variant(d) + ": "@ + daemon_message(d)
}

impl DaemonError {
    /// The error as text: `org.bootcontrol.Error.<Variant>: <message>`.
    pub fn text(&self) -> (t: String)
        ensures
            t@ == daemon_error_text(*self),
    {
        let (name, m) = match self {
            DaemonError::StateMismatch(m) => ("StateMismatch", m),
            DaemonError::KeyNotFound(m) => ("KeyNotFound", m),
            DaemonError::MalformedValue(m) => ("MalformedValue", m),
            DaemonError::ComplexBashDetected(m) => ("ComplexBashDetected", m),
            DaemonError::PolkitDenied(m) => ("PolkitDenied", m),
            DaemonError::EspScanFailed(m) => ("EspScanFailed", m),
            DaemonError::SecurityPolicyViolation(m) => ("SecurityPolicyViolation", m),
            DaemonError::ConcurrentModification(m) => ("ConcurrentModification", m),
            DaemonError::ToolNotFound(m) => ("ToolNotFound", m),
            DaemonError::NvramBackupFailed(m) => ("NvramBackupFailed", m),
            DaemonError::MokKeyNotFound(m) => ("MokKeyNotFound", m),
            DaemonError::SigningFailed(m) => ("SigningFailed", m),
            DaemonError::KeyGenerationFailed(m) => ("KeyGenerationFailed", m),
            DaemonError::NvramWriteFailed(m) => ("NvramWriteFailed", m),
            DaemonError::SnapshotNotFound(m) => ("SnapshotNotFound", m),
            DaemonError::SnapshotCorrupt(m) => ("SnapshotCorrupt", m),
            DaemonError::SnapshotFailed(m) => ("SnapshotFailed", m),
            DaemonError::ImmutableDistroDetected(m) => ("ImmutableDistroDetected", m),
            DaemonError::Failed(m) => ("Failed", m),
        };
        let mut t = String::from_str("org.bootcontrol.Error.");
        t.append(name);
        t.append(": ");
        t.append(m.as_str());
        t
    }
}

/// `d` is the D-Bus error that reports `e`: the variant of the same name,
/// carrying the error's description.
pub open spec fn reports(e: BootControlError, d: DaemonError) -> bool {
    &&& daemon_message(d) == error_message(e)
    &&& match e {
        BootControlError::StateMismatch { .. } => d is StateMismatch,
        BootControlError::KeyNotFound { .. } => d is KeyNotFound,
        BootControlError::MalformedValue { .. } => d is MalformedValue,
        BootControlError::ComplexBashDetected { .. } => d is ComplexBashDetected,
        BootControlError::PolkitDenied => d is PolkitDenied,
        BootControlError::EspScanFailed { .. } => d is EspScanFailed,
        BootControlError::SecurityPolicyViolation { .. } => d is SecurityPolicyViolation,
        BootControlError::ConcurrentModification { .. } => d is ConcurrentModification,
        BootControlError::ToolNotFound { .. } => d is ToolNotFound,
        BootControlError::NvramBackupFailed { .. } => d is NvramBackupFailed,
        BootControlError::MokKeyNotFound { .. } => d is MokKeyNotFound,
        BootControlError::SigningFailed { .. } => d is SigningFailed,
        BootControlError::KeyGenerationFailed { .. } => d is KeyGenerationFailed,
        BootControlError::NvramWriteFailed { .. } => d is NvramWriteFailed,
        BootControlError::ImmutableDistroDetected { .. } => d is ImmutableDistroDetected,
    }
}

/// Map a library error onto its structured D-Bus error.
pub fn to_daemon_error(e: BootControlError) -> (d: DaemonError)
    ensures
        reports(e, d),
{
    let m = e.message();
    match e {
        BootControlError::StateMismatch { .. } => DaemonError::StateMismatch(m),
        BootControlError::KeyNotFound { .. } => DaemonError::KeyNotFound(m),
        BootControlError::MalformedValue { .. } => DaemonError::MalformedValue(m),
        BootControlError::ComplexBashDetected { .. } => DaemonError::ComplexBashDetected(m),
        BootControlError::PolkitDenied => DaemonError::PolkitDenied(m),
        BootControlError::EspScanFailed { .. } => DaemonError::EspScanFailed(m),
        BootControlError::SecurityPolicyViolation { .. } => DaemonError::SecurityPolicyViolation(m),
        BootControlError::ConcurrentModification { .. } => DaemonError::ConcurrentModification(m),
        BootControlError::ToolNotFound { .. } => DaemonError::ToolNotFound(m),
        BootControlError::NvramBackupFailed { .. } => DaemonError::NvramBackupFailed(m),
        BootControlError::MokKeyNotFound { .. } => DaemonError::MokKeyNotFound(m),
        BootControlError::SigningFailed { .. } => DaemonError::SigningFailed(m),
        BootControlError::KeyGenerationFailed { .. } => DaemonError::KeyGenerationFailed(m),
        BootControlError::NvramWriteFailed { .. } => DaemonError::NvramWriteFailed(m),
        BootControlError::ImmutableDistroDetected { .. } => DaemonError::ImmutableDistroDetected(m),
    }
}

} // verus!
