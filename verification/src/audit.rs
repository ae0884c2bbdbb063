//! Structured audit events for privileged daemon operations.
//!
//! Each privileged write produces events in three phases. This module
//! builds the events and renders each into the flat record of structured
//! fields under which the daemon's logger writes it to the journal
//! (`journalctl JOB_ID=…`, `journalctl MESSAGE_ID=…`).

use vstd::prelude::*;
use vstd::string::StringExecFns;
use crate::text::{chars_of, push_all, string_of};

pub mod message_ids;

verus! {

/// Lifecycle phase of an audit event. Three phases per write.
#[derive(Debug, Clone, Copy, PartialEq, Eq, Structural)]
pub enum Phase {
    /// Operation accepted; about to take the snapshot.
    Started,
    /// Snapshot written successfully; about to mutate target.
    SnapshotTaken,
    /// Operation reached a terminal state (success or failure).
    Completed,
}

/// One audit event.
#[derive(Debug, Clone)]
pub struct AuditEvent {
    /// Stable per-op-type UUID (one of the `message_ids::*` constants).
    pub message_id: &'static str,
    /// Operation tag (e.g. `"rewrite_grub"`).
    pub operation: &'static str,
    /// Lifecycle phase.
    pub phase: Phase,
    /// Files this operation touches.
    pub target_paths: Vec<String>,
    /// SHA-256 of the primary target before the write (`None` for `Started`).
    pub etag_before: Option<String>,
    /// SHA-256 of the primary target after the write.
    pub etag_after: Option<String>,
    /// Snapshot id (`Some` from `SnapshotTaken` onwards).
    pub snapshot_id: Option<String>,
    /// Subprocess exit code (only for `Completed` events that ran a child).
    pub exit_code: Option<i32>,
    /// UID of the D-Bus caller who initiated the operation.
    pub caller_uid: u32,
    /// Polkit action that authorised the operation.
    pub polkit_action: &'static str,
    /// UUID linking all events for one invocation.
    pub job_id: String,
    /// Last 4 KiB of subprocess stderr (failures only). Empty otherwise.
    pub stderr_tail: String,
}

/// The message text every audit record carries.
pub const AUDIT_MESSAGE: &'static str = "bootcontrol audit event";

/// The flat journal record of one event: one string or number per field,
/// with absent optional values written as empty text (or exit code 0).
#[derive(Debug, Clone, PartialEq, Eq)]
pub struct AuditRecord {
    pub message_id: String,
    pub operation: String,
    pub phase: String,
    pub target_paths: String,
    pub etag_before: String,
    pub etag_after: String,
    pub snapshot_id: String,
    pub exit_code: i32,
    pub caller_uid: u32,
    pub polkit_action: String,
    pub job_id: String,
    pub stderr_tail: String,
}

/// The name under which a phase is written.
pub open spec fn phase_name(p: Phase) -> Seq<char> {
    match p {
        Phase::Started => "Started"@,
        Phase::SnapshotTaken => "SnapshotTaken"@,
        Phase::Completed => "Completed"@,
    }
}

/// Items separated by single newlines (no newline after the last).
pub open spec fn newline_joined(items: Seq<Seq<char>>) -> Seq<char>
    decreases items.len(),
{
    if items.len() == 0 {
        Seq::empty()
    } else if items.len() == 1 {
        items[0]
    } else {
        newline_joined(items.drop_last()) + seq!['\n'] + items.last()
    }
}

/// An optional text, empty when absent.
pub open spec fn text_or_empty(o: Option<String>) -> Seq<char> {
    match o {
        Some(s) => s@,
        None => Seq::empty(),
    }
}

/// The record an event is written as.
pub open spec fn record_matches(e: AuditEvent, r: AuditRecord) -> bool {
    &&& r.message_id@ == e.message_id@
    &&& r.operation@ == e.operation@
    &&& r.phase@ == phase_name(e.phase)
    &&& r.target_paths@ == newline_joined(e.target_paths@.map_values(|p: String| p@))
    &&& r.etag_before@ == text_or_empty(e.etag_before)
    &&& r.etag_after@ == text_or_empty(e.etag_after)
    &&& r.snapshot_id@ == text_or_empty(e.snapshot_id)
    &&& r.exit_code == (match e.exit_code {
        Some(c) => c,
        None => 0i32,
    })
    &&& r.caller_uid == e.caller_uid
    &&& r.polkit_action@ == e.polkit_action@
    &&& r.job_id@ == e.job_id@
    &&& r.stderr_tail@ == e.stderr_tail@
}

fn phase_text(p: Phase) -> (s: String)
    ensures
        s@ == phase_name(p),
{
    match p {
        Phase::Started => String::from_str("Started"),
        Phase::SnapshotTaken => String::from_str("SnapshotTaken"),
        Phase::Completed => String::from_str("Completed"),
    }
}

fn opt_text(o: &Option<String>) -> (s: String)
    ensures
        s@ == text_or_empty(*o),
{
    match o {
        Some(t) => t.clone(),
        None => String::new(),
    }
}

fn join_paths(paths: &Vec<String>) -> (s: String)
    ensures
        s@ == newline_joined(paths@.map_values(|p: String| p@)),
{
    let ghost items = paths@.map_values(|p: String| p@);
    let mut out: Vec<char> = Vec::new();
    let mut i: usize = 0;
    while i < paths.len()
        invariant
            i <= paths@.len(),
            items == paths@.map_values(|p: String| p@),
            out@ == newline_joined(items.take(i as int)),
        decreases paths@.len() - i,
    {
        let ghost t = items.take(i + 1);
        assert(t.drop_last() =~= items.take(i as int));
        assert(t.last() == paths@[i as int]@);
        if i > 0 {
            out.push('\n');
        } else {
            assert(t =~= seq![items[0]]);
        }
        let p = chars_of(paths[i].as_str());
        push_all(&mut out, p.as_slice());
        i = i + 1;
    }
    assert(items.take(items.len() as int) =~= items);
    string_of(out)
}

/// Render an event into the structured record the logger writes to the
/// journal. Rendering never fails: a failed audit emission must never block
/// a successful operation.
pub fn emit(event: &AuditEvent) -> (record: AuditRecord)
    ensures
        record_matches(*event, record),
{
    AuditRecord {
        message_id: String::from_str(event.message_id),
        operation: String::from_str(event.operation),
        phase: phase_text(event.phase),
        target_paths: join_paths(&event.target_paths),
        etag_before: opt_text(&event.etag_before),
        etag_after: opt_text(&event.etag_after),
        snapshot_id: opt_text(&event.snapshot_id),
        exit_code: match event.exit_code {
            Some(c) => c,
            None => 0,
        },
        caller_uid: event.caller_uid,
        polkit_action: String::from_str(event.polkit_action),
        job_id: event.job_id.clone(),
        stderr_tail: event.stderr_tail.clone(),
    }
}

/// Convenience builder for a `Started` event: the post-operation fields
/// (`etag_after`, `snapshot_id`, `exit_code`, `stderr_tail`) are empty.
pub fn started(
    message_id: &'static str,
    operation: &'static str,
    polkit_action: &'static str,
    caller_uid: u32,
    job_id: String,
    target_paths: Vec<String>,
    etag_before: Option<String>,
) -> (e: AuditEvent)
    ensures
        e.message_id == message_id,
        e.operation == operation,
        e.phase == Phase::Started,
        e.target_paths == target_paths,
        e.etag_before == etag_before,
        e.etag_after is None,
        e.snapshot_id is None,
        e.exit_code is None,
        e.caller_uid == caller_uid,
        e.polkit_action == polkit_action,
        e.job_id == job_id,
        e.stderr_tail@ == Seq::<char>::empty(),
{
    AuditEvent {
        message_id,
        operation,
        phase: Phase::Started,
        target_paths,
        etag_before,
        etag_after: None,
        snapshot_id: None,
        exit_code: None,
        caller_uid,
        polkit_action,
        job_id,
        stderr_tail: String::new(),
    }
}

} // verus!
