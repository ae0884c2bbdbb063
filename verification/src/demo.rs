//! The content the GUI shows in demo mode, when no daemon is reachable:
//! overview figures, three snapshots and five audit-log rows (one failed),
//! newest first. Showing them is the GUI's I/O.

use vstd::prelude::*;
use vstd::string::StringExecFns;

verus! {

/// The overview page's figures.
#[derive(Debug, Clone, PartialEq, Eq)]
pub struct DemoOverview {
    pub default_entry: String,
    pub grub_timeout: i32,
    pub grub_path: String,
    pub grub_etag: String,
    pub setup_mode: bool,
    pub mok_count: i32,
    pub snapshot_count: i32,
    pub last_snapshot: String,
    pub secure_boot_status: String,
    pub mok_status: String,
    pub snapshots_disk_pressure: bool,
    pub snapshots_disk_usage: String,
}

/// One row of the snapshot page.
#[derive(Debug, Clone, PartialEq, Eq)]
pub struct SnapshotRow {
    pub id: String,
    pub op: String,
    pub ts: String,
    pub audit_job_id: String,
}

/// One row of the audit-log page.
#[derive(Debug, Clone, PartialEq, Eq)]
pub struct LogRow {
    pub ts: String,
    pub operation: String,
    pub phase: String,
    pub job_id: String,
    pub exit_code: i32,
    pub stderr_tail: String,
}

/// The demo overview's figures, field by field.
pub open spec fn is_demo_overview(o: DemoOverview) -> bool {
    &&& o.default_entry@ == "Linux Mint 21.3"@
    &&& o.grub_timeout == 5
    &&& o.grub_path@ == "/boot/grub/grub.cfg"@
    &&& o.grub_etag@ == "3f9c1aa8…"@
    &&& !o.setup_mode
    &&& o.mok_count == 1
    &&& o.snapshot_count == 7
    &&& o.last_snapshot@ == "2026-04-30 13:02"@
    &&& o.secure_boot_status@ == "Enabled"@
    &&& o.mok_status@ == "Yes"@
    &&& !o.snapshots_disk_pressure
    &&& o.snapshots_disk_usage@ == "48 MB"@
}

/// The demo overview.
pub fn demo_overview() -> (o: DemoOverview)
    ensures
        is_demo_overview(o),
{
    DemoOverview {
        default_entry: String::from_str("Linux Mint 21.3"),
        grub_timeout: 5,
        grub_path: String::from_str("/boot/grub/grub.cfg"),
        grub_etag: String::from_str("3f9c1aa8…"),
        setup_mode: false,
        mok_count: 1,
        snapshot_count: 7,
        last_snapshot: String::from_str("2026-04-30 13:02"),
        secure_boot_status: String::from_str("Enabled"),
        mok_status: String::from_str("Yes"),
        snapshots_disk_pressure: false,
        snapshots_disk_usage: String::from_str("48 MB"),
    }
}

/// A snapshot row as texts: id, operation, timestamp, audit job id.
pub open spec fn snapshot_row_view(r: SnapshotRow) -> (Seq<char>, Seq<char>, Seq<char>, Seq<char>) {
    (r.id@, r.op@, r.ts@, r.audit_job_id@)
}

/// The demo snapshots, newest first.
pub open spec fn demo_snapshot_views() -> Seq<(Seq<char>, Seq<char>, Seq<char>, Seq<char>)> {
    seq![
        ("ts-1735603331-rewrite-grub"@, "rewrite_grub"@, "2026-04-30 13:02:11"@, "demo-job-rewrite-1"@),
        ("ts-1735599210-set-grub-value"@, "set_grub_value"@, "2026-04-30 11:53:30"@, "demo-job-set-1"@),
        ("ts-1735512000-enroll-mok"@, "enroll_mok"@, "2026-04-29 11:40:00"@, "demo-job-mok-1"@),
    ]
}

fn snapshot_row(id: &str, op: &str, ts: &str, audit_job_id: &str) -> (r: SnapshotRow)
    ensures
        snapshot_row_view(r) == (id@, op@, ts@, audit_job_id@),
{
    SnapshotRow {
        id: String::from_str(id),
        op: String::from_str(op),
        ts: String::from_str(ts),
        audit_job_id: String::from_str(audit_job_id),
    }
}

/// The demo snapshot rows.
pub fn demo_snapshot_rows() -> (v: Vec<SnapshotRow>)
    ensures
        v@.map_values(|r: SnapshotRow| snapshot_row_view(r)) == demo_snapshot_views(),
{
    let v = vec![
        snapshot_row("ts-1735603331-rewrite-grub", "rewrite_grub", "2026-04-30 13:02:11", "demo-job-rewrite-1"),
        snapshot_row("ts-1735599210-set-grub-value", "set_grub_value", "2026-04-30 11:53:30", "demo-job-set-1"),
        snapshot_row("ts-1735512000-enroll-mok", "enroll_mok", "2026-04-29 11:40:00", "demo-job-mok-1"),
    ];
    assert(v@.map_values(|r: SnapshotRow| snapshot_row_view(r)) =~= demo_snapshot_views());
    v
}

/// A log row as texts and its exit code: timestamp, operation, phase, job
/// id, exit code, the tail of its error output.
pub open spec fn log_row_view(r: LogRow) -> (Seq<char>, Seq<char>, Seq<char>, Seq<char>, i32, Seq<char>) {
    (r.ts@, r.operation@, r.phase@, r.job_id@, r.exit_code, r.stderr_tail@)
}

/// The demo audit log, newest first; the last row is a failed write.
pub open spec fn demo_log_views() -> Seq<(Seq<char>, Seq<char>, Seq<char>, Seq<char>, i32, Seq<char>)> {
    seq![
        ("2026-04-30 13:02:11"@, "rewrite_grub"@, "completed"@, "demo-job-rewrite-1"@, 0i32, ""@),
        ("2026-04-30 13:02:09"@, "rewrite_grub"@, "snapshot_taken"@, "demo-job-rewrite-1"@, 0i32, ""@),
        ("2026-04-30 11:53:30"@, "set_grub_value"@, "completed"@, "demo-job-set-1"@, 0i32, ""@),
        ("2026-04-29 11:40:00"@, "enroll_mok"@, "completed"@, "demo-job-mok-1"@, 0i32, ""@),
        (
            "2026-04-28 22:15:42"@,
            "set_grub_value"@,
            "completed"@,
            "demo-job-fail-1"@,
            1i32,
            "ETag mismatch: caller stale"@,
        ),
    ]
}

fn log_row(ts: &str, operation: &str, phase: &str, job_id: &str, exit_code: i32, stderr_tail: &str) -> (r: LogRow)
    ensures
        log_row_view(r) == (ts@, operation@, phase@, job_id@, exit_code, stderr_tail@),
{
    LogRow {
        ts: String::from_str(ts),
        operation: String::from_str(operation),
        phase: String::from_str(phase),
        job_id: String::from_str(job_id),
        exit_code,
        stderr_tail: String::from_str(stderr_tail),
    }
}

/// The demo audit-log rows.
pub fn demo_log_rows() -> (v: Vec<LogRow>)
    ensures
        v@.map_values(|r: LogRow| log_row_view(r)) == demo_log_views(),
{
    let v = vec![
        log_row("2026-04-30 13:02:11", "rewrite_grub", "completed", "demo-job-rewrite-1", 0, ""),
        log_row("2026-04-30 13:02:09", "rewrite_grub", "snapshot_taken", "demo-job-rewrite-1", 0, ""),
        log_row("2026-04-30 11:53:30", "set_grub_value", "completed", "demo-job-set-1", 0, ""),
        log_row("2026-04-29 11:40:00", "enroll_mok", "completed", "demo-job-mok-1", 0, ""),
        log_row("2026-04-28 22:15:42", "set_grub_value", "completed", "demo-job-fail-1", 1, "ETag mismatch: caller stale"),
    ];
    assert(v@.map_values(|r: LogRow| log_row_view(r)) =~= demo_log_views());
    v
}

} // verus!
