//! Pre-write snapshots: their manifest, their identifiers, the policy that
//! decides what a restore may write, and the retention policy.
//!
//! A snapshot captures the files an operation is about to modify into
//! `<root>/<id>/`, each under a flat name derived from its path, next to a
//! JSON manifest describing them. Reading and writing those files is the
//! daemon's I/O; this module decides every question the I/O depends on.

use vstd::prelude::*;
use vstd::string::StringExecFns;
use vstd::string::StringSliceAdditionalSpecFns;
use crate::error::DaemonError;
use crate::etag::{compute_etag, compute_etag_str, etag_of};
use crate::text::{chars_eq, chars_of, escape_text, push_all, quoted, string_of, u32_to_decimal, decimal, text_lt, text_less, lemma_text_lt_asym, lemma_not_lt_lt_trans};

verus! {

/// The manifest schema version this library writes and understands.
pub const SCHEMA_VERSION: u32 = 1;

/// Errors raised by the snapshot module.
#[derive(Debug, Clone, PartialEq, Eq)]
pub enum SnapshotError {
    /// An underlying filesystem operation failed (the system's description).
    Io(String),
    /// The manifest could not be (de)serialised (the parser's description).
    Serde(String),
    /// The requested snapshot id does not exist under the snapshot root.
    NotFound(String),
    /// The manifest's `schema_version` is newer than this library supports.
    SchemaUpgradeRequired(u32),
    /// The snapshot id is not a single, plain directory name.
    InvalidId(String),
    /// The manifest asks to write a path the daemon does not manage.
    UnmanagedTarget(String),
}

/// The human-readable description of a snapshot error.
pub open spec fn snapshot_message(e: SnapshotError) -> Seq<char> {
    match e {
        SnapshotError::Io(d) => "snapshot io error: "@ + d@,
        SnapshotError::Serde(d) => "snapshot manifest parse error: "@ + d@,
        SnapshotError::NotFound(id) => "snapshot not found: "@ + id@,
        SnapshotError::SchemaUpgradeRequired(v) => "snapshot schema_version "@ + decimal(v as nat)
            + " not supported by this daemon"@,
        SnapshotError::InvalidId(id) => "invalid snapshot id "@ + quoted(id@)
            + ": must be a single directory name, without path separators, '.' or '..'"@,
        SnapshotError::UnmanagedTarget(p) => "snapshot manifest targets "@ + p@
            + ", which is not a path this daemon manages"@,
    }
}

fn concat3(a: &str, b: &[char], c: &str) -> (s: String)
    ensures
        s@ == a@ + b@ + c@,
{
    let mut v = chars_of(a);
    push_all(&mut v, b);
    let w = chars_of(c);
    push_all(&mut v, w.as_slice());
    string_of(v)
}

fn concat2(a: &str, b: &[char]) -> (s: String)
    ensures
        s@ == a@ + b@,
{
    let mut v = chars_of(a);
    push_all(&mut v, b);
    string_of(v)
}

impl SnapshotError {
    /// The human-readable description of this error.
    pub fn message(&self) -> (m: String)
        ensures
            m@ == snapshot_message(*self),
    {
        match self {
            SnapshotError::Io(d) => {
                let v = chars_of(d.as_str());
                concat2("snapshot io error: ", v.as_slice())
            },
            SnapshotError::Serde(d) => {
                let v = chars_of(d.as_str());
                concat2("snapshot manifest parse error: ", v.as_slice())
            },
            SnapshotError::NotFound(id) => {
                let v = chars_of(id.as_str());
                concat2("snapshot not found: ", v.as_slice())
            },
            SnapshotError::SchemaUpgradeRequired(v) => {
                let d = u32_to_decimal(*v);
                concat3("snapshot schema_version ", d.as_slice(), " not supported by this daemon")
            },
            SnapshotError::InvalidId(id) => {
                let q = escape_text(id.as_str());
                concat3(
                    "invalid snapshot id ",
                    q.as_slice(),
                    ": must be a single directory name, without path separators, '.' or '..'",
                )
            },
            SnapshotError::UnmanagedTarget(p) => {
                let v = chars_of(p.as_str());
                concat3(
                    "snapshot manifest targets ",
                    v.as_slice(),
                    ", which is not a path this daemon manages",
                )
            },
        }
    }
}

/// The D-Bus error that reports a snapshot error, carrying its description:
/// a missing snapshot, or an id that cannot name one, is `SnapshotNotFound`;
/// a manifest that cannot be read, is too new, or targets an unmanaged path
/// is `SnapshotCorrupt`; an I/O failure is `SnapshotFailed`.
pub open spec fn reports_snapshot_error(e: SnapshotError, d: DaemonError) -> bool {
    match e {
        SnapshotError::NotFound(_) | SnapshotError::InvalidId(_) => d == DaemonError::SnapshotNotFound(
            d->SnapshotNotFound_0,
        ) && d->SnapshotNotFound_0@ == snapshot_message(e),
        SnapshotError::SchemaUpgradeRequired(_) | SnapshotError::Serde(_)
        | SnapshotError::UnmanagedTarget(_) => d == DaemonError::SnapshotCorrupt(
            d->SnapshotCorrupt_0,
        ) && d->SnapshotCorrupt_0@ == snapshot_message(e),
        SnapshotError::Io(_) => d == DaemonError::SnapshotFailed(d->SnapshotFailed_0)
            && d->SnapshotFailed_0@ == snapshot_message(e),
    }
}

/// Map a snapshot error onto its structured D-Bus error.
pub fn snapshot_to_daemon_error(e: SnapshotError) -> (d: DaemonError)
    ensures
        reports_snapshot_error(e, d),
{
    let msg = e.message();
    match e {
        SnapshotError::NotFound(_) => DaemonError::SnapshotNotFound(msg),
        SnapshotError::InvalidId(_) => DaemonError::SnapshotNotFound(msg),
        SnapshotError::SchemaUpgradeRequired(_) => DaemonError::SnapshotCorrupt(msg),
        SnapshotError::Serde(_) => DaemonError::SnapshotCorrupt(msg),
        SnapshotError::UnmanagedTarget(_) => DaemonError::SnapshotCorrupt(msg),
        SnapshotError::Io(_) => DaemonError::SnapshotFailed(msg),
    }
}

/// One row in the manifest's `files` array — a file captured by the snapshot.
#[derive(Debug, Clone, PartialEq, Eq)]
pub struct ManifestFile {
    /// Absolute path of the captured file as it existed at snapshot time.
    pub path: String,
    /// Hex SHA-256 of the captured contents.
    pub sha256: String,
    /// Octal mode string (e.g. `"0644"`) preserved for restore.
    pub mode: String,
}

/// One row in the manifest's `efivars` array.
#[derive(Debug, Clone, PartialEq, Eq)]
pub struct ManifestEfivar {
    /// Name of the EFI variable (e.g. `BootOrder-8be4df…`).
    pub name: String,
    /// Hex SHA-256 of the captured value.
    pub sha256: String,
}

/// The snapshot manifest, stored as JSON in the snapshot's directory.
#[derive(Debug, Clone, PartialEq, Eq)]
pub struct SnapshotManifest {
    /// Schema version (currently 1).
    pub schema_version: u32,
    /// RFC 3339 UTC timestamp.
    pub ts: String,
    /// Operation tag, e.g. `"rewrite_grub"`, `"enroll_mok"`.
    pub op: String,
    /// Polkit action that authorised the surrounding write.
    pub polkit_action: String,
    /// UID of the user whose D-Bus call requested the operation.
    pub caller_uid: u32,
    /// ETag (file SHA-256) of the primary target before the write.
    pub etag_before: String,
    /// Files captured.
    pub files: Vec<ManifestFile>,
    /// EFI variables captured.
    pub efivars: Vec<ManifestEfivar>,
    /// UUID for the journald audit JOB_ID this snapshot belongs to.
    pub audit_job_id: String,
}

/// Summary of one snapshot, as listed.
#[derive(Debug, Clone, PartialEq, Eq)]
pub struct SnapshotInfo {
    /// Snapshot id, of the form `<ts without ':'>-<op>-<job-hash>`.
    pub id: String,
    /// Operation tag (mirror of the manifest's `op`).
    pub op: String,
    /// RFC 3339 timestamp of the snapshot.
    pub ts: String,
    /// Audit JOB_ID that links this snapshot to its journald audit row.
    pub audit_job_id: String,
    /// Path to the manifest file.
    pub manifest_path: String,
}

/// Parameters required to capture a snapshot.
pub struct SnapshotRequest<'a> {
    /// Root directory under which the snapshot's directory is created.
    pub root: &'a str,
    /// Operation identifier (used in the snapshot id and manifest).
    pub op: &'a str,
    /// Polkit action id that authorised the originating write.
    pub polkit_action: &'a str,
    /// Caller's UID.
    pub caller_uid: u32,
    /// ETag of the primary target file as the daemon read it under flock.
    pub etag_before: &'a str,
    /// Files to capture. Order is preserved in the manifest.
    pub files: &'a [String],
    /// Audit JOB_ID (UUID) — links this snapshot to the journald audit row.
    pub audit_job_id: &'a str,
}

// ── Path policy ────────────────────────────────────────────────────────────

/// A run of path text is a component unless it is empty or `.`
/// (separators collapse and `.` is dropped, as `Path::components` does).
pub open spec fn is_component(seg: Seq<char>) -> bool {
    seg.len() > 0 && seg != seq!['.']
}

/// `done` with `seg` appended when `seg` is a component.
pub open spec fn close_segment(done: Seq<Seq<char>>, seg: Seq<char>) -> Seq<Seq<char>> {
    if is_component(seg) {
        done.push(seg)
    } else {
        done
    }
}

/// Scanning `p` left to right: the components closed so far and the
/// segment being read.
pub open spec fn scan_components(p: Seq<char>) -> (Seq<Seq<char>>, Seq<char>)
    decreases p.len(),
{
    if p.len() == 0 {
        (Seq::empty(), Seq::empty())
    } else {
        let (done, seg) = scan_components(p.drop_last());
        if p.last() == '/' {
            (close_segment(done, seg), Seq::empty())
        } else {
            (done, seg.push(p.last()))
        }
    }
}

/// The components of a path: its `/`-separated runs, without empty runs
/// and without `.`.
pub open spec fn components(p: Seq<char>) -> Seq<Seq<char>> {
    close_segment(scan_components(p).0, scan_components(p).1)
}

/// The path starts at the root.
pub open spec fn is_absolute(p: Seq<char>) -> bool {
    p.len() > 0 && p[0] == '/'
}

/// Some component of the path is `..`.
pub open spec fn climbs(p: Seq<char>) -> bool {
    components(p).contains(seq!['.', '.'])
}

/// `base` covers the absolute path `target` component-wise: `base` is the
/// empty path, or an absolute path whose components begin `target`'s.
pub open spec fn covers(base: Seq<char>, target: Seq<char>) -> bool {
    base.len() == 0 || (is_absolute(base) && components(base).len() <= components(target).len()
        && components(target).take(components(base).len() as int) == components(base))
}

/// `target` is an absolute, `..`-free path inside one of `allowed`: it is
/// one of them, or lies below one of them.
pub open spec fn lexically_managed(target: Seq<char>, allowed: Seq<Seq<char>>) -> bool {
    &&& is_absolute(target)
    &&& !climbs(target)
    &&& exists|k: int| 0 <= k < allowed.len() && covers(#[trigger] allowed[k], target)
}

fn components_of(p: &str) -> (c: Vec<Vec<char>>)
    ensures
        c@.map_values(|v: Vec<char>| v@) == components(p@),
{
    let cs = chars_of(p);
    let mut done: Vec<Vec<char>> = Vec::new();
    let mut seg: Vec<char> = Vec::new();
    let mut i: usize = 0;
    while i < cs.len()
        invariant
            i <= cs@.len(),
            cs@ == p@,
            (done@.map_values(|v: Vec<char>| v@), seg@) == scan_components(cs@.take(i as int)),
        decreases cs@.len() - i,
    {
        let ghost t = cs@.take(i + 1);
        assert(t.drop_last() =~= cs@.take(i as int));
        let c = cs[i];
        if c == '/' {
            let keep = seg.len() > 0 && !(seg.len() == 1 && seg[0] == '.');
            assert(keep == is_component(seg@)) by {
                if seg@.len() == 1 && seg@ != seq!['.'] {
                    assert(seg@ =~= seq![seg@[0]]);
                }
            }
            if keep {
                done.push(seg);
                assert(done@.map_values(|v: Vec<char>| v@) =~= scan_components(t).0);
            }
            seg = Vec::new();
        } else {
            seg.push(c);
        }
        i = i + 1;
    }
    assert(cs@.take(cs@.len() as int) =~= cs@);
    let keep = seg.len() > 0 && !(seg.len() == 1 && seg[0] == '.');
    assert(keep == is_component(seg@)) by {
        if seg@.len() == 1 && seg@ != seq!['.'] {
            assert(seg@ =~= seq![seg@[0]]);
        }
    }
    if keep {
        done.push(seg);
        assert(done@.map_values(|v: Vec<char>| v@) =~= components(p@));
    }
    done
}

fn has_parent_component(c: &Vec<Vec<char>>) -> (r: bool)
    ensures
        r == c@.map_values(|v: Vec<char>| v@).contains(seq!['.', '.']),
{
    let ghost cv = c@.map_values(|v: Vec<char>| v@);
    let mut i: usize = 0;
    while i < c.len()
        invariant
            i <= c@.len(),
            cv == c@.map_values(|v: Vec<char>| v@),
            forall|k: int| 0 <= k < i ==> cv[k] != seq!['.', '.'],
        decreases c@.len() - i,
    {
        let s = &c[i];
        if s.len() == 2 && s[0] == '.' && s[1] == '.' {
            assert(cv[i as int] =~= seq!['.', '.']);
            return true;
        }
        assert(cv[i as int] != seq!['.', '.']) by {
            if cv[i as int] == seq!['.', '.'] {
                assert(s@.len() == 2 && s@[0] == '.' && s@[1] == '.');
            }
        }
        i = i + 1;
    }
    false
}

fn components_prefix(base: &Vec<Vec<char>>, target: &Vec<Vec<char>>) -> (r: bool)
    ensures
        r == ({
            let b = base@.map_values(|v: Vec<char>| v@);
            let t = target@.map_values(|v: Vec<char>| v@);
            b.len() <= t.len() && t.take(b.len() as int) == b
        }),
{
    let ghost b = base@.map_values(|v: Vec<char>| v@);
    let ghost t = target@.map_values(|v: Vec<char>| v@);
    if base.len() > target.len() {
        return false;
    }
    let mut i: usize = 0;
    while i < base.len()
        invariant
            i <= base@.len() <= target@.len(),
            b == base@.map_values(|v: Vec<char>| v@),
            t == target@.map_values(|v: Vec<char>| v@),
            forall|k: int| 0 <= k < i ==> t[k] == b[k],
        decreases base@.len() - i,
    {
        if !chars_eq(base[i].as_slice(), target[i].as_slice()) {
            assert(t.take(b.len() as int)[i as int] != b[i as int]);
            return false;
        }
        i = i + 1;
    }
    assert(t.take(b.len() as int) =~= b);
    true
}

/// Whether `target` is an absolute, `..`-free path inside one of `allowed`
/// (the lexical half of the restore containment policy; `Path::starts_with`
/// compares whole components, so `/etc/default/grub-evil` is not inside
/// `/etc/default/grub`).
pub fn is_lexically_managed(target: &str, allowed: &[String]) -> (r: bool)
    ensures
        r == lexically_managed(target@, allowed@.map_values(|a: String| a@)),
{
    let ghost al = allowed@.map_values(|a: String| a@);
    let t = chars_of(target);
    if t.len() == 0 || t[0] != '/' {
        return false;
    }
    let tc = components_of(target);
    if has_parent_component(&tc) {
        return false;
    }
    assert(t@ == target@);
    let mut k: usize = 0;
    while k < allowed.len()
        invariant
            k <= allowed@.len(),
            al == allowed@.map_values(|a: String| a@),
            tc@.map_values(|v: Vec<char>| v@) == components(target@),
            is_absolute(target@),
            !climbs(target@),
            forall|j: int| 0 <= j < k ==> !covers(#[trigger] al[j], target@),
        decreases allowed@.len() - k,
    {
        let a = chars_of(allowed[k].as_str());
        assert(al[k as int] == a@);
        if a.len() == 0 {
            assert(covers(al[k as int], target@));
            return true;
        }
        if a[0] == '/' {
            let ac = components_of(allowed[k].as_str());
            if components_prefix(&ac, &tc) {
                assert(covers(al[k as int], target@));
                return true;
            }
        }
        k = k + 1;
    }
    false
}

/// Whether a snapshot id is a single plain directory name: not empty, no
/// `/` or `\`, and neither `.` nor `..`.
pub open spec fn plain_component(id: Seq<char>) -> bool {
    &&& id.len() > 0
    &&& !id.contains('/')
    &&& !id.contains('\\')
    &&& id != seq!['.']
    &&& id != seq!['.', '.']
}

/// Whether a snapshot id is a single plain directory name. An absolute id
/// would discard the snapshot root when joined to it, and `..` would climb
/// out of it.
pub fn is_plain_component(id: &str) -> (r: bool)
    ensures
        r == plain_component(id@),
{
    let cs = chars_of(id);
    if cs.len() == 0 {
        return false;
    }
    let mut i: usize = 0;
    while i < cs.len()
        invariant
            i <= cs@.len(),
            cs@ == id@,
            forall|k: int| 0 <= k < i ==> cs@[k] != '/' && cs@[k] != '\\',
        decreases cs@.len() - i,
    {
        if cs[i] == '/' || cs[i] == '\\' {
            return false;
        }
        i = i + 1;
    }
    if cs.len() == 1 && cs[0] == '.' {
        assert(id@ =~= seq!['.']);
        return false;
    }
    if cs.len() == 2 && cs[0] == '.' && cs[1] == '.' {
        assert(id@ =~= seq!['.', '.']);
        return false;
    }
    true
}

/// Refuse a snapshot id that is not a single plain directory name, before
/// it is ever joined to the snapshot root.
pub fn check_restore_id(id: &str) -> (r: Result<(), SnapshotError>)
    ensures
        r is Ok <==> plain_component(id@),
        r is Err ==> r == Err::<(), SnapshotError>(SnapshotError::InvalidId(r->Err_0->InvalidId_0))
            && r->Err_0->InvalidId_0@ == id@,
{
    if is_plain_component(id) {
        Ok(())
    } else {
        Err(SnapshotError::InvalidId(String::from_str(id)))
    }
}

// ── Captured-file names ───────────────────────────────────────────────────

/// Index of the first character at or after `i` that is not `/`.
pub open spec fn skip_slashes(p: Seq<char>, i: int) -> int
    decreases p.len() - i,
{
    if 0 <= i < p.len() && p[i] == '/' {
        skip_slashes(p, i + 1)
    } else {
        i
    }
}

/// The text with every `/` written as `__`.
pub open spec fn slashes_doubled(s: Seq<char>) -> Seq<char>
    decreases s.len(),
{
    if s.len() == 0 {
        Seq::empty()
    } else {
        slashes_doubled(s.drop_last()) + if s.last() == '/' {
            seq!['_', '_']
        } else {
            seq![s.last()]
        }
    }
}

/// The flat name a captured file is stored under inside the snapshot
/// directory: leading slashes dropped, every other `/` written as `__`
/// (`/etc/default/grub` → `etc__default__grub`).
pub open spec fn flattened(p: Seq<char>) -> Seq<char> {
    slashes_doubled(p.subrange(skip_slashes(p, 0), p.len() as int))
}

/// The flat name a captured file is stored under inside the snapshot
/// directory.
pub fn flatten_path(path: &str) -> (name: String)
    ensures
        name@ == flattened(path@),
{
    let cs = chars_of(path);
    let mut j: usize = 0;
    while j < cs.len() && cs[j] == '/'
        invariant
            j <= cs@.len(),
            cs@ == path@,
            skip_slashes(cs@, 0) == skip_slashes(cs@, j as int),
        decreases cs@.len() - j,
    {
        j = j + 1;
    }
    let ghost rest = cs@.subrange(j as int, cs@.len() as int);
    let mut out: Vec<char> = Vec::new();
    let mut i: usize = j;
    while i < cs.len()
        invariant
            j <= i <= cs@.len(),
            rest == cs@.subrange(j as int, cs@.len() as int),
            out@ == slashes_doubled(rest.take(i - j)),
        decreases cs@.len() - i,
    {
        let ghost t = rest.take(i + 1 - j);
        assert(t.drop_last() =~= rest.take(i - j));
        assert(t.last() == cs@[i as int]);
        if cs[i] == '/' {
            out.push('_');
            out.push('_');
        } else {
            out.push(cs[i]);
        }
        assert(out@ =~= slashes_doubled(t));
        i = i + 1;
    }
    assert(rest.take(rest.len() as int) =~= rest);
    string_of(out)
}

// ── Restore ───────────────────────────────────────────────────────────────

/// What inspecting the existing ancestors of a restore target found.
#[derive(Debug, Clone, PartialEq, Eq)]
pub enum AncestorCheck {
    /// No existing ancestor (nor the target itself) is a symbolic link.
    Clear,
    /// Some existing ancestor, or the target itself, is a symbolic link.
    Symlink,
    /// Inspecting an ancestor failed for a reason other than its absence.
    Failed(String),
}

/// One file a restore writes back: the captured copy's flat name inside the
/// snapshot directory, and the path it is written to.
#[derive(Debug, Clone, PartialEq, Eq)]
pub struct RestoreCopy {
    pub captured_name: String,
    pub target: String,
}

/// A manifest target may be written: it is lexically managed and no
/// existing ancestor of it is a symbolic link.
pub open spec fn target_accepted(path: Seq<char>, allowed: Seq<Seq<char>>, check: AncestorCheck) -> bool {
    lexically_managed(path, allowed) && check == AncestorCheck::Clear
}

/// `e` is the refusal of the rejected target `path`: `UnmanagedTarget`
/// naming it when it is outside the managed set or reached through a
/// symbolic link, the I/O error when inspecting it failed.
pub open spec fn refuses_target(
    e: SnapshotError,
    path: Seq<char>,
    allowed: Seq<Seq<char>>,
    check: AncestorCheck,
) -> bool {
    if !lexically_managed(path, allowed) || check == AncestorCheck::Symlink {
        e matches SnapshotError::UnmanagedTarget(p) && p@ == path
    } else {
        check matches AncestorCheck::Failed(m) && e matches SnapshotError::Io(d) && d@ == m@
    }
}

/// Decide a restore from the manifest read from disk: the schema must be
/// one this library understands, and every target must be accepted before
/// any file is written — a manifest mixing a managed and an unmanaged path
/// restores neither. `checks[i]` is what inspecting the ancestors of the
/// `i`-th target found. On success, the copies to make, in manifest order.
pub fn plan_restore(
    manifest: &SnapshotManifest,
    allowed: &[String],
    checks: &[AncestorCheck],
) -> (r: Result<Vec<RestoreCopy>, SnapshotError>)
    requires
        checks@.len() == manifest.files@.len(),
    ensures
        manifest.schema_version > SCHEMA_VERSION ==> r == Err::<Vec<RestoreCopy>, SnapshotError>(
            SnapshotError::SchemaUpgradeRequired(manifest.schema_version),
        ),
        manifest.schema_version <= SCHEMA_VERSION ==> {
            let files = manifest.files@;
            let al = allowed@.map_values(|a: String| a@);
            &&& r is Ok <==> forall|i: int|
                0 <= i < files.len() ==> target_accepted(
                    (#[trigger] files[i]).path@,
                    al,
                    checks@[i],
                )
            &&& r matches Ok(copies) ==> copies@.len() == files.len() && forall|i: int|
                0 <= i < files.len() ==> (#[trigger] copies@[i]).target@ == files[i].path@
                    && copies@[i].captured_name@ == flattened(files[i].path@)
            &&& r matches Err(e) ==> exists|k: int|
                0 <= k < files.len() && (forall|j: int|
                    0 <= j < k ==> target_accepted(
                        (#[trigger] files[j]).path@,
                        al,
                        checks@[j],
                    )) && !target_accepted(files[k].path@, al, checks@[k]) && refuses_target(
                    e,
                    files[k].path@,
                    al,
                    checks@[k],
                )
        },
{
    if manifest.schema_version > SCHEMA_VERSION {
        return Err(SnapshotError::SchemaUpgradeRequired(manifest.schema_version));
    }
    let ghost files = manifest.files@;
    let ghost al = allowed@.map_values(|a: String| a@);
    let mut i: usize = 0;
    while i < manifest.files.len()
        invariant
            i <= files.len(),
            files == manifest.files@,
            manifest.schema_version <= SCHEMA_VERSION,
            checks@.len() == files.len(),
            al == allowed@.map_values(|a: String| a@),
            forall|j: int| 0 <= j < i ==> target_accepted((#[trigger] files[j]).path@, al, checks@[j]),
        decreases files.len() - i,
    {
        let f = &manifest.files[i];
        let managed = is_lexically_managed(f.path.as_str(), allowed);
        if !managed {
            return Err(SnapshotError::UnmanagedTarget(f.path.clone()));
        }
        match &checks[i] {
            AncestorCheck::Clear => {},
            AncestorCheck::Symlink => {
                return Err(SnapshotError::UnmanagedTarget(f.path.clone()));
            },
            AncestorCheck::Failed(m) => {
                return Err(SnapshotError::Io(m.clone()));
            },
        }
        i = i + 1;
    }
    let mut copies: Vec<RestoreCopy> = Vec::new();
    let mut i: usize = 0;
    while i < manifest.files.len()
        invariant
            i <= files.len(),
            files == manifest.files@,
            manifest.schema_version <= SCHEMA_VERSION,
            forall|j: int| 0 <= j < files.len() ==> target_accepted((#[trigger] files[j]).path@, al, checks@[j]),
            al == allowed@.map_values(|a: String| a@),
            copies@.len() == i,
            forall|j: int|
                0 <= j < i ==> (#[trigger] copies@[j]).target@ == files[j].path@
                    && copies@[j].captured_name@ == flattened(files[j].path@),
        decreases files.len() - i,
    {
        let f = &manifest.files[i];
        copies.push(RestoreCopy { captured_name: flatten_path(f.path.as_str()), target: f.path.clone() });
        i = i + 1;
    }
    Ok(copies)
}

// ── Capture ───────────────────────────────────────────────────────────────

/// The octal digit character of `d` (below eight).
pub open spec fn octal_char(d: int) -> char {
    (('0' as int) + d) as char
}

/// The permission bits of a file mode as four octal digits (`"0644"`).
pub open spec fn mode_text(mode: u32) -> Seq<char> {
    let m = mode as int % 4096;
    seq![octal_char(m / 512), octal_char(m / 64 % 8), octal_char(m / 8 % 8), octal_char(m % 8)]
}

fn octal_digit(d: u32) -> (c: char)
    requires
        d < 8,
    ensures
        c == octal_char(d as int),
{
    ((48u32 + d) as u8) as char
}

/// The permission bits of a file mode (`mode & 0o7777`) as four octal
/// digits, as the manifest records them.
pub fn mode_octal(mode: u32) -> (s: String)
    ensures
        s@ == mode_text(mode),
{
    let m = mode % 4096;
    let mut v: Vec<char> = Vec::new();
    v.push(octal_digit(m / 512));
    v.push(octal_digit(m / 64 % 8));
    v.push(octal_digit(m / 8 % 8));
    v.push(octal_digit(m % 8));
    assert(v@ =~= mode_text(mode));
    string_of(v)
}

/// The manifest row of a captured file: its path, the ETag of the bytes
/// captured, and its permission bits.
pub fn capture_entry(path: &str, contents: &[u8], mode: u32) -> (f: ManifestFile)
    ensures
        f.path@ == path@,
        f.sha256@ == etag_of(contents@),
        f.mode@ == mode_text(mode),
{
    ManifestFile {
        path: String::from_str(path),
        sha256: compute_etag(contents),
        mode: mode_octal(mode),
    }
}

/// The manifest of a new snapshot taken at `ts`, listing `files` in order,
/// with no EFI variables, at the current schema version.
pub fn new_manifest(req: &SnapshotRequest, ts: &str, files: Vec<ManifestFile>) -> (m: SnapshotManifest)
    ensures
        m.schema_version == SCHEMA_VERSION,
        m.ts@ == ts@,
        m.op@ == req.op@,
        m.polkit_action@ == req.polkit_action@,
        m.caller_uid == req.caller_uid,
        m.etag_before@ == req.etag_before@,
        m.files@ == files@,
        m.efivars@.len() == 0,
        m.audit_job_id@ == req.audit_job_id@,
{
    SnapshotManifest {
        schema_version: SCHEMA_VERSION,
        ts: String::from_str(ts),
        op: String::from_str(req.op),
        polkit_action: String::from_str(req.polkit_action),
        caller_uid: req.caller_uid,
        etag_before: String::from_str(req.etag_before),
        files,
        efivars: Vec::new(),
        audit_job_id: String::from_str(req.audit_job_id),
    }
}

/// A text with every `:` removed (`:` is not allowed in FAT/exFAT names).
pub open spec fn without_colons(s: Seq<char>) -> Seq<char>
    decreases s.len(),
{
    if s.len() == 0 {
        Seq::empty()
    } else {
        without_colons(s.drop_last()) + if s.last() == ':' {
            Seq::empty()
        } else {
            seq![s.last()]
        }
    }
}

/// The id of a snapshot: the timestamp without colons, the operation, and
/// the first sixteen hex digits of the ETag of the audit job id, joined by
/// `-`. Distinct jobs at the same second get distinct ids (up to a hash
/// collision), and the job id itself never reaches the path.
pub open spec fn snapshot_id_text(ts: Seq<char>, op: Seq<char>, job_hash: Seq<char>) -> Seq<char> {
    without_colons(ts) + seq!['-'] + op + seq!['-'] + job_hash.take(16)
}

/// Snapshots taken at the same second for the same operation get distinct
/// ids whenever the ETags of their audit job ids differ in their first
/// sixteen hex digits.
pub proof fn lemma_distinct_jobs_distinct_ids(ts: Seq<char>, op: Seq<char>, h1: Seq<char>, h2: Seq<char>)
    requires
        h1.len() >= 16,
        h2.len() >= 16,
        h1.take(16) != h2.take(16),
    ensures
        snapshot_id_text(ts, op, h1) != snapshot_id_text(ts, op, h2),
{
    let p = without_colons(ts) + seq!['-'] + op + seq!['-'];
    let a = snapshot_id_text(ts, op, h1);
    let b = snapshot_id_text(ts, op, h2);
    assert(a =~= p + h1.take(16));
    assert(b =~= p + h2.take(16));
    if a == b {
        assert(a.subrange(p.len() as int, a.len() as int) =~= h1.take(16));
        assert(b.subrange(p.len() as int, b.len() as int) =~= h2.take(16));
    }
}

/// The id of a snapshot taken at `ts` for operation `op` and audit job
/// `audit_job_id`.
pub fn snapshot_id(ts: &str, op: &str, audit_job_id: &str) -> (id: String)
    ensures
        id@ == snapshot_id_text(ts@, op@, etag_of(audit_job_id.spec_bytes())),
{
    let t = chars_of(ts);
    let mut out: Vec<char> = Vec::new();
    let mut i: usize = 0;
    while i < t.len()
        invariant
            i <= t@.len(),
            t@ == ts@,
            out@ == without_colons(t@.take(i as int)),
        decreases t@.len() - i,
    {
        let ghost tk = t@.take(i + 1);
        assert(tk.drop_last() =~= t@.take(i as int));
        if t[i] != ':' {
            out.push(t[i]);
        }
        assert(out@ =~= without_colons(tk));
        i = i + 1;
    }
    assert(t@.take(t@.len() as int) =~= t@);
    out.push('-');
    let o = chars_of(op);
    push_all(&mut out, o.as_slice());
    out.push('-');
    let h = compute_etag_str(audit_job_id);
    let hc = chars_of(h.as_str());
    let mut k: usize = 0;
    let ghost before = out@;
    while k < 16
        invariant
            k <= 16,
            hc@.len() == 64,
            out@ == before + hc@.take(k as int),
        decreases 16 - k,
    {
        out.push(hc[k]);
        assert(hc@.take(k + 1) =~= hc@.take(k as int).push(hc@[k as int]));
        k = k + 1;
    }
    assert(out@ =~= snapshot_id_text(ts@, op@, etag_of(audit_job_id.spec_bytes())));
    string_of(out)
}

/// The RFC 3339 text (whole seconds, `Z` suffix) that `chrono` writes for
/// the UTC instant `unix_secs` seconds after the Unix epoch.
pub uninterp spec fn rfc3339_utc_seconds(unix_secs: i64) -> Seq<char>;

/// An instant from the Unix epoch through the last second of year 9999,
/// in seconds: well inside the calendar `chrono` can represent.
pub open spec fn in_calendar_range(unix_secs: i64) -> bool {
    0 <= unix_secs <= 253_402_300_799
}

/// Calls `chrono::DateTime::<Utc>::from_timestamp(unix_secs, 0)` and
/// formats the instant with `to_rfc3339_opts(SecondsFormat::Secs, true)`.
/// When `chrono` can represent the instant the text is the one named by
/// [`rfc3339_utc_seconds`]; otherwise `None`. Every instant in
/// [`in_calendar_range`] can be represented (its day number lies far inside
/// `chrono`'s year range); for instants outside it, whether the conversion
/// succeeds is left unstated.
#[verifier::external_body]
fn rfc3339_seconds(unix_secs: i64) -> (t: Option<String>)
    ensures
        t matches Some(s) ==> s@ == rfc3339_utc_seconds(unix_secs),
        in_calendar_range(unix_secs) ==> t is Some,
{
    match chrono::DateTime::<chrono::Utc>::from_timestamp(unix_secs, 0) {
        Some(d) => Some(d.to_rfc3339_opts(chrono::SecondsFormat::Secs, true)),
        None => None,
    }
}

/// The timestamp and id of a snapshot for `req` taken at the instant
/// `now_unix`; `None` when the instant has no calendar text, which never
/// happens from the epoch through year 9999.
pub fn begin_snapshot(req: &SnapshotRequest, now_unix: i64) -> (r: Option<(String, String)>)
    ensures
        in_calendar_range(now_unix) ==> r is Some,
        r matches Some((ts, id)) ==> ts@ == rfc3339_utc_seconds(now_unix) && id@
            == snapshot_id_text(ts@, req.op@, etag_of(req.audit_job_id.spec_bytes())),
{
    match rfc3339_seconds(now_unix) {
        Some(ts) => {
            let id = snapshot_id(ts.as_str(), req.op, req.audit_job_id);
            Some((ts, id))
        },
        None => None,
    }
}

// ── Listing ───────────────────────────────────────────────────────────────

/// The summary of a snapshot read from its manifest; a manifest with a
/// newer schema than this library understands is refused.
pub fn listed_info(id: &str, manifest: SnapshotManifest, manifest_path: &str) -> (r: Result<SnapshotInfo, SnapshotError>)
    ensures
        manifest.schema_version > SCHEMA_VERSION ==> r == Err::<SnapshotInfo, SnapshotError>(
            SnapshotError::SchemaUpgradeRequired(manifest.schema_version),
        ),
        manifest.schema_version <= SCHEMA_VERSION ==> (r matches Ok(info) && info.id@ == id@
            && info.op == manifest.op && info.ts == manifest.ts && info.audit_job_id
            == manifest.audit_job_id && info.manifest_path@ == manifest_path@),
{
    if manifest.schema_version > SCHEMA_VERSION {
        return Err(SnapshotError::SchemaUpgradeRequired(manifest.schema_version));
    }
    Ok(SnapshotInfo {
        id: String::from_str(id),
        op: manifest.op,
        ts: manifest.ts,
        audit_job_id: manifest.audit_job_id,
        manifest_path: String::from_str(manifest_path),
    })
}

/// Newest first: no snapshot is listed before one with a later timestamp.
pub open spec fn newest_first_order(v: Seq<SnapshotInfo>) -> bool {
    forall|i: int, j: int| 0 <= i < j < v.len() ==> !text_lt(v[i].ts@, v[j].ts@)
}

/// Order snapshots newest first (RFC 3339 timestamps sort as text);
/// snapshots with equal timestamps keep their relative order.
pub fn newest_first(snapshots: Vec<SnapshotInfo>) -> (r: Vec<SnapshotInfo>)
    ensures
        newest_first_order(r@),
        r@.to_multiset() == snapshots@.to_multiset(),
{
    let mut out: Vec<SnapshotInfo> = Vec::new();
    let mut rest = snapshots;
    let ghost orig = rest@;
    assert(orig.take(0) =~= Seq::<SnapshotInfo>::empty());
    let mut i: usize = 0;
    let n = rest.len();
    let mut src: Vec<SnapshotInfo> = Vec::new();
    // Move the input into `src` in reverse so `pop` yields it in order.
    while rest.len() > 0
        invariant
            src@.len() + rest@.len() == orig.len(),
            rest@ == orig.take(rest@.len() as int),
            forall|k: int| 0 <= k < src@.len() ==> src@[k] == orig[orig.len() - 1 - k],
        decreases rest@.len(),
    {
        let x = rest.pop().unwrap();
        src.push(x);
        assert(rest@ =~= orig.take(rest@.len() as int));
    }
    while i < n
        invariant
            n == orig.len(),
            i <= n,
            src@.len() == n - i,
            forall|k: int| 0 <= k < src@.len() ==> src@[k] == orig[orig.len() - 1 - k],
            newest_first_order(out@),
            out@.to_multiset() == orig.take(i as int).to_multiset(),
        decreases n - i,
    {
        let x = src.pop().unwrap();
        assert(x == orig[i as int]);
        let mut p: usize = 0;
        while p < out.len() && !text_less(out[p].ts.as_str(), x.ts.as_str())
            invariant
                p <= out@.len(),
                forall|k: int| 0 <= k < p ==> !text_lt((#[trigger] out@[k]).ts@, x.ts@),
            decreases out@.len() - p,
        {
            p = p + 1;
        }
        let ghost old_out = out@;
        proof {
            assert forall|k: int| p <= k < old_out.len() implies !text_lt(x.ts@, (#[trigger] old_out[k]).ts@) by {
                // old_out[p] is older than x, and old_out[k] is no newer than old_out[p]
                if k > p {
                    lemma_not_lt_lt_trans(old_out[p as int].ts@, old_out[k].ts@, x.ts@);
                }
                lemma_text_lt_asym(old_out[k].ts@, x.ts@);
            }
        }
        out.insert(p, x);
        proof {
            vstd::seq_lib::to_multiset_insert(old_out, p as int, x);
            assert(orig.take(i + 1) =~= orig.take(i as int).push(x));
            vstd::seq_lib::to_multiset_build(orig.take(i as int), x);
            assert forall|a: int, b: int| 0 <= a < b < out@.len() implies !text_lt(out@[a].ts@, out@[b].ts@) by {
                if a < p && b == p {
                } else if a == p {
                    assert(out@[b] == old_out[b - 1]);
                } else if b < p {
                } else if a < p && b > p {
                    assert(out@[b] == old_out[b - 1]);
                } else {
                    assert(out@[a] == old_out[a - 1]);
                    assert(out@[b] == old_out[b - 1]);
                }
            }
        }
        i = i + 1;
    }
    assert(orig.take(n as int) =~= orig);
    out
}

// ── Retention ─────────────────────────────────────────────────────────────

/// The longest retention, in days, that `chrono` can subtract from an
/// instant (its time deltas are bounded by `i64::MAX` milliseconds).
pub const MAX_KEEP_DAYS: u64 = 106_751_991_167;

/// The RFC 3339 text of the instant `keep_days` days before `now_unix`:
/// snapshots stamped before it are old enough to reap. `None` when that
/// instant has no calendar text, which never happens for an instant from
/// the epoch through year 9999.
pub fn reap_cutoff(now_unix: i64, keep_days: u64) -> (r: Option<String>)
    requires
        keep_days <= MAX_KEEP_DAYS,
        now_unix - keep_days * 86400 >= i64::MIN,
    ensures
        r matches Some(t) ==> t@ == rfc3339_utc_seconds((now_unix - keep_days * 86400) as i64),
        in_calendar_range((now_unix - keep_days * 86400) as i64) ==> r is Some,
{
    let span: i64 = (keep_days * 86400) as i64;
    rfc3339_seconds(now_unix - span)
}

/// The ids among the first `n` snapshots (listed newest first) that are
/// beyond the `keep_count` most recent and stamped before `cutoff`.
pub open spec fn reaped_among(snaps: Seq<SnapshotInfo>, keep_count: int, cutoff: Seq<char>, n: int) -> Seq<Seq<char>>
    decreases n,
{
    if n <= 0 {
        Seq::empty()
    } else {
        let r = reaped_among(snaps, keep_count, cutoff, n - 1);
        if n - 1 >= keep_count && text_lt(snaps[n - 1].ts@, cutoff) {
            r.push(snaps[n - 1].id@)
        } else {
            r
        }
    }
}

/// The retention policy: keep at least `keep_count` snapshots or every
/// snapshot stamped at or after `cutoff`, whichever covers more; the ids
/// of the others, newest first.
pub open spec fn reap_selection(snaps: Seq<SnapshotInfo>, keep_count: int, cutoff: Seq<char>) -> Seq<Seq<char>> {
    if snaps.len() <= keep_count {
        Seq::empty()
    } else {
        reaped_among(snaps, keep_count, cutoff, snaps.len() as int)
    }
}

/// The ids of the snapshots (listed newest first) that the retention
/// policy deletes.
pub fn select_for_reaping(snapshots: &[SnapshotInfo], keep_count: usize, cutoff: &str) -> (ids: Vec<String>)
    ensures
        ids@.map_values(|s: String| s@) == reap_selection(snapshots@, keep_count as int, cutoff@),
{
    let mut ids: Vec<String> = Vec::new();
    if snapshots.len() <= keep_count {
        assert(ids@.map_values(|s: String| s@) =~= Seq::<Seq<char>>::empty());
        return ids;
    }
    let mut i: usize = 0;
    while i < snapshots.len()
        invariant
            i <= snapshots@.len(),
            ids@.map_values(|s: String| s@) == reaped_among(snapshots@, keep_count as int, cutoff@, i as int),
        decreases snapshots@.len() - i,
    {
        let s = &snapshots[i];
        if i >= keep_count && text_less(s.ts.as_str(), cutoff) {
            ids.push(s.id.clone());
            assert(ids@.map_values(|s: String| s@) =~= reaped_among(
                snapshots@,
                keep_count as int,
                cutoff@,
                i + 1,
            ));
        }
        i = i + 1;
    }
    ids
}

proof fn lemma_reaped_among_origin(snaps: Seq<SnapshotInfo>, keep_count: int, cutoff: Seq<char>, n: int, m: int)
    requires
        0 <= n <= snaps.len(),
        0 <= m < reaped_among(snaps, keep_count, cutoff, n).len(),
    ensures
        exists|i: int|
            0 <= i && keep_count <= i < n && text_lt(snaps[i].ts@, cutoff) && #[trigger] snaps[i].id@
                == reaped_among(snaps, keep_count, cutoff, n)[m],
    decreases n,
{
    let r = reaped_among(snaps, keep_count, cutoff, n - 1);
    if m < r.len() {
        lemma_reaped_among_origin(snaps, keep_count, cutoff, n - 1, m);
    } else {
        assert(snaps[n - 1].id@ == reaped_among(snaps, keep_count, cutoff, n)[m]);
    }
}

/// Retention never deletes one of the `keep_count` most recent snapshots,
/// nor one stamped at or after the cutoff: every reaped id belongs to a
/// snapshot that is both beyond the count and older than the cutoff (ids
/// name distinct directories).
pub proof fn lemma_reap_keeps_recent(snaps: Seq<SnapshotInfo>, keep_count: int, cutoff: Seq<char>)
    requires
        forall|i: int, j: int| 0 <= i < j < snaps.len() ==> snaps[i].id@ != snaps[j].id@,
    ensures
        forall|i: int|
            0 <= i < snaps.len() && (i < keep_count || !text_lt(snaps[i].ts@, cutoff))
                ==> !reap_selection(snaps, keep_count, cutoff).contains(#[trigger] snaps[i].id@),
        snaps.len() <= keep_count ==> reap_selection(snaps, keep_count, cutoff).len() == 0,
{
    assert forall|i: int|
        0 <= i < snaps.len() && (i < keep_count || !text_lt(snaps[i].ts@, cutoff))
            implies !reap_selection(snaps, keep_count, cutoff).contains(#[trigger] snaps[i].id@) by {
        let sel = reap_selection(snaps, keep_count, cutoff);
        if sel.contains(snaps[i].id@) {
            assert(snaps.len() > keep_count);
            let m = choose|m: int| 0 <= m < sel.len() && sel[m] == snaps[i].id@;
            lemma_reaped_among_origin(snaps, keep_count, cutoff, snaps.len() as int, m);
            let j = choose|j: int|
                0 <= j && keep_count <= j < snaps.len() && text_lt(snaps[j].ts@, cutoff) && #[trigger] snaps[j].id@
                    == reaped_among(snaps, keep_count, cutoff, snaps.len() as int)[m];
            assert(snaps[j].id@ == snaps[i].id@);
            if i < j {
                assert(snaps[i].id@ != snaps[j].id@);
            } else if j < i {
                assert(snaps[j].id@ != snaps[i].id@);
            }
        }
    }
}

} // verus!
