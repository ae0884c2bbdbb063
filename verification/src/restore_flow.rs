//! The daemon's `RestoreSnapshot` call as a state machine: admission (the
//! caller, Polkit's `restore-snapshot` action, a writable host), then the
//! `Started` audit event, the lock and freshness check of the snapshot's
//! primary target, the restore itself, the `Completed` audit event carrying
//! its outcome, and the reply.
//!
//! Nothing is restored before the call was admitted and its `Started`
//! event emitted, nor unless the primary target was locked and still has
//! the caller's ETag: a stale ETag is answered `StateMismatch`, a target
//! locked by another process `ConcurrentModification`. The reply is the
//! outcome the `Completed` event recorded.

use vstd::prelude::*;
use vstd::string::StringExecFns;
use crate::audit::{message_ids, AuditEvent, Phase};
use crate::call_gate::{admission_step, CallGate, Clearance, GateAction, GateEvent, GateStep, HostPolicy};
use crate::error::{daemon_error_text, to_daemon_error, BootControlError, DaemonError};
use crate::etag::{compute_etag, etag_of, verify_etag};
use crate::polkit::actions;
use crate::secureboot::{join_path, joined};
use crate::snapshot::{reports_snapshot_error, snapshot_to_daemon_error, SnapshotError};
use crate::text::chars_of;

verus! {

/// `name` joined onto `base` as `Path::join` does: an absolute `name`
/// replaces `base`.
pub open spec fn path_joined(base: Seq<char>, name: Seq<char>) -> Seq<char> {
    if name.len() > 0 && name[0] == '/' {
        name
    } else {
        joined(base, name)
    }
}

/// Join `name` onto `base` as `Path::join` does.
pub fn join_onto(base: &str, name: &str) -> (p: String)
    ensures
        p@ == path_joined(base@, name@),
{
    let n = chars_of(name);
    if n.len() > 0 && n[0] == '/' {
        String::from_str(name)
    } else {
        join_path(base, name)
    }
}

/// Where the call stands.
#[derive(Debug, Clone, Copy, PartialEq, Eq, Structural)]
pub enum RestoreStep {
    Admitting,
    AwaitStartedEmitted,
    AwaitLock,
    AwaitRestore,
    AwaitCompletedEmitted,
    Done,
}

/// What locking and reading the snapshot's primary target (the first
/// file its manifest lists) found.
#[derive(Debug)]
pub enum TargetState {
    /// The target is locked (until the restore ends) and holds these bytes.
    Locked { path: String, bytes: Vec<u8> },
    /// Another process holds the target's lock.
    Busy { path: String },
    /// The snapshot or its target could not be read.
    Failed(SnapshotError),
}

/// What the daemon reports back after an action.
#[derive(Debug)]
pub enum RestoreEvent {
    /// The outcome of an admission step.
    Admission(GateEvent),
    /// The audit event was emitted.
    Emitted,
    /// The primary target was locked and read, or could not be.
    TargetLocked(TargetState),
    /// The outcome of restoring the snapshot's files.
    Restored(Result<(), SnapshotError>),
}

/// What the daemon is to do next.
#[derive(Debug)]
pub enum RestoreAction {
    /// An admission step (resolve the caller, ask Polkit, probe the host).
    Admission(GateAction),
    /// Emit this audit event.
    Emit(AuditEvent),
    /// Lock the snapshot's primary target, without blocking, and read it.
    LockTarget,
    /// Restore the snapshot's files (the primary target is locked and
    /// matches the caller's ETag).
    Restore,
    /// Answer the D-Bus call.
    Reply(Result<(), DaemonError>),
}

/// One `RestoreSnapshot` call.
#[derive(Debug)]
pub struct RestoreCall {
    gate: CallGate,
    step: RestoreStep,
    id: String,
    expected_etag: String,
    target_path: String,
    job_id: String,
    outcome: Option<Result<(), DaemonError>>,
}

/// The admission action a call's action answers to: an admission step
/// itself, the start of the restore for a cleared call, the reply for a
/// refused one.
pub open spec fn admission_answer(a: RestoreAction) -> GateAction {
    match a {
        RestoreAction::Admission(x) => x,
        RestoreAction::Reply(Err(d)) => GateAction::Refuse(d),
        _ => GateAction::Proceed(Clearance::Writable),
    }
}

/// The text of an out-of-order event's refusal.
pub open spec fn restore_protocol_error() -> Seq<char> {
    "restore received an out-of-order event"@
}

/// The audit event of phase `phase` for this call.
pub open spec fn restore_event_of(
    c: RestoreCall,
    e: AuditEvent,
    phase: Phase,
    exit_code: Option<i32>,
    stderr_tail: Seq<char>,
) -> bool {
    &&& e.message_id@ == message_ids::RESTORE_SNAPSHOT@
    &&& e.operation@ == "restore_snapshot"@
    &&& e.phase == phase
    &&& e.target_paths@.len() == 1
    &&& e.target_paths@[0]@ == c.target_text()
    &&& e.etag_before matches Some(b) && b@ == c.etag_text()
    &&& e.etag_after is None
    &&& e.snapshot_id matches Some(s) && s@ == c.id_text()
    &&& e.exit_code == exit_code
    &&& e.caller_uid == c.caller()
    &&& e.polkit_action@ == actions::RESTORE_SNAPSHOT@
    &&& e.job_id@ == c.job_text()
    &&& e.stderr_tail@ == stderr_tail
}

/// The refusal of a restore whose primary target is not fresh: the D-Bus
/// error that reports `StateMismatch` (the caller's ETag against the
/// target's) or `ConcurrentModification` (naming the locked target), or
/// that reports the failure to read it.
pub open spec fn target_refusal(t: TargetState, expected: Seq<char>, d: DaemonError) -> bool {
    match t {
        TargetState::Locked { path, bytes } => d matches DaemonError::StateMismatch(m) && m@
            == "ETag mismatch: expected "@ + expected + ", found "@ + etag_of(bytes@),
        TargetState::Busy { path } => d matches DaemonError::ConcurrentModification(m) && m@
            == "file is locked by another process: "@ + path@,
        TargetState::Failed(e) => reports_snapshot_error(e, d),
    }
}

/// The primary target may be restored over: it is locked and holds bytes
/// whose ETag is the caller's.
pub open spec fn target_fresh(t: TargetState, expected: Seq<char>) -> bool {
    t matches TargetState::Locked { bytes, .. } && etag_of(bytes@) == expected
}

impl RestoreCall {
    /// The snapshot id to restore.
    pub closed spec fn id_text(&self) -> Seq<char> {
        self.id@
    }

    /// The caller's ETag of the primary target.
    pub closed spec fn etag_text(&self) -> Seq<char> {
        self.expected_etag@
    }

    /// The path audited as the call's target: the snapshot's directory.
    pub closed spec fn target_text(&self) -> Seq<char> {
        self.target_path@
    }

    /// The audit job id of this call.
    pub closed spec fn job_text(&self) -> Seq<char> {
        self.job_id@
    }

    /// The step the call stands at.
    pub closed spec fn step(&self) -> RestoreStep {
        self.step
    }

    /// The admission's record.
    pub closed spec fn admission(&self) -> CallGate {
        self.gate
    }

    /// The caller's UID, once resolved.
    pub closed spec fn caller(&self) -> u32 {
        self.gate.caller()
    }

    /// The reply owed once the `Completed` event is emitted.
    pub closed spec fn pending_reply(&self) -> Option<Result<(), DaemonError>> {
        self.outcome
    }

    /// The call's record is consistent with its step.
    pub closed spec fn wf(&self) -> bool {
        &&& self.gate.wf()
        &&& self.gate.required_action() == actions::RESTORE_SNAPSHOT@
        &&& self.gate.host_policy() == HostPolicy::RequireWritable
        &&& match self.step {
            RestoreStep::Admitting => self.gate.step() != GateStep::Passed && self.outcome is None,
            RestoreStep::AwaitStartedEmitted | RestoreStep::AwaitLock | RestoreStep::AwaitRestore => self.gate.step()
                == GateStep::Passed && self.gate.is_authorized() && self.outcome is None,
            RestoreStep::AwaitCompletedEmitted => self.gate.step() == GateStep::Passed
                && self.gate.is_authorized() && self.outcome is Some,
            RestoreStep::Done => true,
        }
    }

    /// Start a `RestoreSnapshot(id, expected_etag)` call under
    /// `snapshot_root`, audited under `job_id`: the first action resolves
    /// the caller.
    pub fn new(snapshot_root: &str, id: String, expected_etag: String, job_id: String) -> (r: (Self, RestoreAction))
        ensures
            r.0.wf(),
            r.0.step() == RestoreStep::Admitting,
            r.0.admission().step() == GateStep::AwaitCaller,
            r.0.id_text() == id@,
            r.0.etag_text() == expected_etag@,
            r.0.target_text() == path_joined(snapshot_root@, id@),
            r.0.job_text() == job_id@,
            r.1 matches RestoreAction::Admission(GateAction::ResolveCaller),
    {
        let (gate, first) = CallGate::new(actions::RESTORE_SNAPSHOT, HostPolicy::RequireWritable);
        let target_path = join_onto(snapshot_root, id.as_str());
        (
            RestoreCall { gate, step: RestoreStep::Admitting, id, expected_etag, target_path, job_id, outcome: None },
            RestoreAction::Admission(first),
        )
    }

    fn event(&self, phase: Phase, exit_code: Option<i32>, stderr_tail: String) -> (e: AuditEvent)
        ensures
            restore_event_of(*self, e, phase, exit_code, stderr_tail@),
    {
        AuditEvent {
            message_id: message_ids::RESTORE_SNAPSHOT,
            operation: "restore_snapshot",
            phase,
            target_paths: vec![self.target_path.clone()],
            etag_before: Some(self.expected_etag.clone()),
            etag_after: None,
            snapshot_id: Some(self.id.clone()),
            exit_code,
            caller_uid: self.gate.caller_uid(),
            polkit_action: actions::RESTORE_SNAPSHOT,
            job_id: self.job_id.clone(),
            stderr_tail,
        }
    }

    /// Take the outcome of the pending action and decide the next one.
    ///
    /// - Admission: forwarded to the admission; once admitted, the
    ///   `Started` event is emitted; a refusal is the reply.
    /// - `Started` emitted: lock and read the primary target.
    /// - Target locked: restore the files when its bytes have the caller's
    ///   ETag; otherwise emit `Completed` with exit code 1 and the refusal
    ///   (`StateMismatch`, `ConcurrentModification`, or the read failure).
    /// - Restored: emit `Completed` with exit code 0, or 1 and the text of
    ///   the D-Bus error that reports the failure.
    /// - `Completed` emitted: reply with the restore's outcome.
    ///
    /// Any other event ends the call with `Failed`.
    pub fn advance(&mut self, ev: RestoreEvent) -> (a: RestoreAction)
        requires
            old(self).wf(),
        ensures
            final(self).wf(),
            final(self).id_text() == old(self).id_text(),
            final(self).etag_text() == old(self).etag_text(),
            final(self).target_text() == old(self).target_text(),
            final(self).job_text() == old(self).job_text(),
            a is Restore ==> final(self).admission().is_authorized() && final(self).admission().step()
                == GateStep::Passed,
            a is LockTarget ==> final(self).admission().is_authorized() && final(self).admission().step()
                == GateStep::Passed,
            a is Restore ==> old(self).step() == RestoreStep::AwaitLock && (ev matches RestoreEvent::TargetLocked(
                t,
            ) && target_fresh(t, old(self).etag_text())),
            match (old(self).step(), ev) {
                (RestoreStep::Admitting, RestoreEvent::Admission(g)) => {
                    &&& admission_step(old(self).admission(), final(self).admission(), g, admission_answer(a))
                    &&& match a {
                        RestoreAction::Admission(x) => final(self).step() == RestoreStep::Admitting
                            && !(x is Proceed) && !(x is Refuse),
                        RestoreAction::Emit(e) => final(self).step() == RestoreStep::AwaitStartedEmitted
                            && restore_event_of(*final(self), e, Phase::Started, None, Seq::empty()),
                        RestoreAction::Reply(r) => final(self).step() == RestoreStep::Done && r is Err,
                        _ => false,
                    }
                },
                (RestoreStep::AwaitStartedEmitted, RestoreEvent::Emitted) => {
                    &&& final(self).step() == RestoreStep::AwaitLock
                    &&& a is LockTarget
                },
                (RestoreStep::AwaitLock, RestoreEvent::TargetLocked(t)) => if target_fresh(t, old(self).etag_text()) {
                    &&& final(self).step() == RestoreStep::AwaitRestore
                    &&& a is Restore
                } else {
                    &&& final(self).step() == RestoreStep::AwaitCompletedEmitted
                    &&& final(self).pending_reply() matches Some(Err(d)) && target_refusal(t, old(self).etag_text(), d)
                    &&& a matches RestoreAction::Emit(e) && final(self).pending_reply() matches Some(Err(d))
                        && restore_event_of(*final(self), e, Phase::Completed, Some(1i32), daemon_error_text(d))
                },
                (RestoreStep::AwaitRestore, RestoreEvent::Restored(Ok(()))) => {
                    &&& final(self).step() == RestoreStep::AwaitCompletedEmitted
                    &&& final(self).pending_reply() == Some(Ok::<(), DaemonError>(()))
                    &&& a matches RestoreAction::Emit(e) && restore_event_of(
                        *final(self),
                        e,
                        Phase::Completed,
                        Some(0i32),
                        Seq::empty(),
                    )
                },
                (RestoreStep::AwaitRestore, RestoreEvent::Restored(Err(err))) => {
                    &&& final(self).step() == RestoreStep::AwaitCompletedEmitted
                    &&& final(self).pending_reply() matches Some(Err(d)) && reports_snapshot_error(err, d)
                    &&& a matches RestoreAction::Emit(e) && final(self).pending_reply() matches Some(Err(d))
                        && restore_event_of(*final(self), e, Phase::Completed, Some(1i32), daemon_error_text(d))
                },
                (RestoreStep::AwaitCompletedEmitted, RestoreEvent::Emitted) => {
                    &&& final(self).step() == RestoreStep::Done
                    &&& a matches RestoreAction::Reply(r) && old(self).pending_reply() == Some(r)
                },
                _ => {
                    &&& final(self).step() == RestoreStep::Done
                    &&& a matches RestoreAction::Reply(Err(DaemonError::Failed(x))) && x@
                        == restore_protocol_error()
                },
            },
    {
        match (self.step, ev) {
            (RestoreStep::Admitting, RestoreEvent::Admission(g)) => {
                let ga = self.gate.advance(g);
                match ga {
                    GateAction::Proceed(_) => {
                        self.step = RestoreStep::AwaitStartedEmitted;
                        let e = self.event(Phase::Started, None, String::new());
                        RestoreAction::Emit(e)
                    },
                    GateAction::Refuse(d) => {
                        self.step = RestoreStep::Done;
                        RestoreAction::Reply(Err(d))
                    },
                    other => {
                        proof {
                            assert(self.gate.step() != GateStep::Passed);
                        }
                        RestoreAction::Admission(other)
                    },
                }
            },
            (RestoreStep::AwaitStartedEmitted, RestoreEvent::Emitted) => {
                self.step = RestoreStep::AwaitLock;
                RestoreAction::LockTarget
            },
            (RestoreStep::AwaitLock, RestoreEvent::TargetLocked(t)) => {
                let refusal = match t {
                    TargetState::Locked { path, bytes } => {
                        if verify_etag(self.expected_etag.as_str(), bytes.as_slice()) {
                            None
                        } else {
                            let e = BootControlError::StateMismatch {
                                expected: self.expected_etag.clone(),
                                actual: compute_etag(bytes.as_slice()),
                            };
                            Some(to_daemon_error(e))
                        }
                    },
                    TargetState::Busy { path } => Some(
                        to_daemon_error(BootControlError::ConcurrentModification { path }),
                    ),
                    TargetState::Failed(e) => Some(snapshot_to_daemon_error(e)),
                };
                match refusal {
                    None => {
                        self.step = RestoreStep::AwaitRestore;
                        RestoreAction::Restore
                    },
                    Some(d) => {
                        let tail = d.text();
                        self.outcome = Some(Err(d));
                        self.step = RestoreStep::AwaitCompletedEmitted;
                        let e = self.event(Phase::Completed, Some(1i32), tail);
                        RestoreAction::Emit(e)
                    },
                }
            },
            (RestoreStep::AwaitRestore, RestoreEvent::Restored(r)) => {
                let (outcome, code, tail) = match r {
                    Ok(()) => (Ok(()), 0i32, String::new()),
                    Err(e) => {
                        let d = snapshot_to_daemon_error(e);
                        let t = d.text();
                        (Err(d), 1i32, t)
                    },
                };
                self.outcome = Some(outcome);
                self.step = RestoreStep::AwaitCompletedEmitted;
                let e = self.event(Phase::Completed, Some(code), tail);
                RestoreAction::Emit(e)
            },
            (RestoreStep::AwaitCompletedEmitted, RestoreEvent::Emitted) => {
                let outcome = match self.outcome.take() {
                    Some(o) => o,
                    None => Err(DaemonError::Failed(String::from_str("restore received an out-of-order event"))),
                };
                self.step = RestoreStep::Done;
                RestoreAction::Reply(outcome)
            },
            _ => {
                self.step = RestoreStep::Done;
                RestoreAction::Reply(Err(DaemonError::Failed(String::from_str("restore received an out-of-order event"))))
            },
        }
    }
}

} // verus!
