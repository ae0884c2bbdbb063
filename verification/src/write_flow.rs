//! The daemon's privileged write path for `SetGrubValue`, as a state
//! machine: the daemon performs each action (resolve the caller, ask
//! Polkit, probe the host, emit an audit event, take the snapshot, write
//! the file, refresh the failsafe entry, regenerate `grub.cfg`) and hands
//! back what happened; every decision between those
//! steps is made here.
//!
//! The order is the write-path covenant: nothing touches the host before
//! Polkit authorized the caller, the payload is checked before anything is
//! written, a snapshot precedes the write and a failed snapshot aborts it,
//! the failsafe entry is refreshed after every successful write and before
//! `grub.cfg` is regenerated, and every attempted write is closed by a `Completed` audit event that
//! carries its outcome.

use vstd::prelude::*;
use vstd::string::StringExecFns;
use crate::audit::{message_ids, AuditEvent, Phase};
use crate::error::{daemon_error_text, reports, to_daemon_error, BootControlError, DaemonError};
use crate::immutable_distro::{distro_tag, ImmutableDistro};
use crate::polkit::actions;
use crate::sanitize::{check_payload, hits};

verus! {

/// Where the write path stands: which outcome it waits for.
#[derive(Debug, Clone, Copy, PartialEq, Eq, Structural)]
pub enum WriteStep {
    AwaitCaller,
    AwaitAuthorization,
    AwaitHost,
    AwaitStartedEmitted,
    AwaitSnapshot,
    AwaitSnapshotEmitted,
    AwaitWrite,
    AwaitFailsafe,
    AwaitRebuild,
    AwaitCompletedEmitted,
    Done,
}

/// What the daemon reports back after performing an action.
#[derive(Debug)]
pub enum WriteEvent {
    /// The caller's Unix UID, or why it could not be resolved.
    CallerResolved(Result<u32, String>),
    /// Polkit's answer.
    Authorized(Result<(), BootControlError>),
    /// The host's immutable family, if any.
    HostProbed(Option<ImmutableDistro>),
    /// The audit event was emitted.
    Emitted,
    /// The snapshot's id, or why it failed.
    SnapshotTaken(Result<String, String>),
    /// The outcome of the locked, ETag-checked write.
    Written(Result<(), BootControlError>),
    /// The outcome of regenerating the failsafe menu entry.
    FailsafeRefreshed(Result<(), BootControlError>),
    /// The outcome of regenerating `grub.cfg`.
    Rebuilt(Result<(), BootControlError>),
}

/// What the daemon is to do next.
#[derive(Debug)]
pub enum WriteAction {
    /// Resolve the caller's Unix UID from the message header.
    ResolveCaller,
    /// Ask Polkit to authorize the caller for `action`.
    Authorize(&'static str),
    /// Probe whether the host is an immutable distribution.
    ProbeHost,
    /// Emit this audit event.
    Emit(AuditEvent),
    /// Snapshot the GRUB file (operation `set_grub_value`, the caller's
    /// ETag as `etag_before`, the flow's job id and caller).
    TakeSnapshot,
    /// Write the key under the file lock, checking the caller's ETag.
    WriteValue,
    /// Regenerate the failsafe menu entry.
    RefreshFailsafe,
    /// Regenerate `grub.cfg` with `grub-mkconfig`.
    RebuildMenu,
    /// Answer the D-Bus call.
    Reply(Result<(), DaemonError>),
}

/// The state of one `SetGrubValue` call.
#[derive(Debug)]
pub struct GrubValueWrite {
    key: String,
    value: String,
    etag: String,
    job_id: String,
    target_path: String,
    step: WriteStep,
    caller_uid: u32,
    authorized: bool,
    host_writable: bool,
    snapshot_id: Option<String>,
    outcome: Option<Result<(), DaemonError>>,
}

/// The payload holds no blacklisted pattern.
pub open spec fn payload_clean(key: Seq<char>, value: Seq<char>) -> bool {
    forall|i: int| !hits(key, i) && !hits(value, i)
}

/// The reply to a protocol violation (an outcome that does not answer the
/// pending action).
pub open spec fn protocol_error_text() -> Seq<char> {
    "write path received an out-of-order event"@
}

/// The audit event of phase `phase` for this call.
pub open spec fn audit_event_of(
    w: GrubValueWrite,
    e: AuditEvent,
    phase: Phase,
    snapshot_id: Option<Seq<char>>,
    exit_code: Option<i32>,
    stderr_tail: Seq<char>,
) -> bool {
    &&& e.message_id@ == message_ids::SET_GRUB_VALUE@
    &&& e.operation@ == "set_grub_value"@
    &&& e.phase == phase
    &&& e.target_paths@.len() == 1
    &&& e.target_paths@[0]@ == w.target_text()
    &&& e.etag_before matches Some(b) && b@ == w.etag_text()
    &&& e.etag_after is None
    &&& match (e.snapshot_id, snapshot_id) {
        (Some(a), Some(b)) => a@ == b,
        (None, None) => true,
        _ => false,
    }
    &&& e.exit_code == exit_code
    &&& e.caller_uid == w.caller()
    &&& e.polkit_action@ == actions::REWRITE_GRUB@
    &&& e.job_id@ == w.job_text()
    &&& e.stderr_tail@ == stderr_tail
}

impl GrubValueWrite {
    /// The key to set.
    pub closed spec fn key_text(&self) -> Seq<char> {
        self.key@
    }

    /// Its new value.
    pub closed spec fn value_text(&self) -> Seq<char> {
        self.value@
    }

    /// The caller's ETag of the GRUB file.
    pub closed spec fn etag_text(&self) -> Seq<char> {
        self.etag@
    }

    /// The audit job id of this call.
    pub closed spec fn job_text(&self) -> Seq<char> {
        self.job_id@
    }

    /// The GRUB file's path, as audited.
    pub closed spec fn target_text(&self) -> Seq<char> {
        self.target_path@
    }

    /// The key to set.
    pub fn key(&self) -> (r: &str)
        ensures
            r@ == self.key_text(),
    {
        self.key.as_str()
    }

    /// Its new value.
    pub fn value(&self) -> (r: &str)
        ensures
            r@ == self.value_text(),
    {
        self.value.as_str()
    }

    /// The caller's ETag of the GRUB file.
    pub fn etag(&self) -> (r: &str)
        ensures
            r@ == self.etag_text(),
    {
        self.etag.as_str()
    }

    /// The audit job id of this call.
    pub fn job_id(&self) -> (r: &str)
        ensures
            r@ == self.job_text(),
    {
        self.job_id.as_str()
    }

    /// The caller's UID (meaningful once resolved).
    pub fn caller_uid(&self) -> (r: u32)
        ensures
            r == self.caller(),
    {
        self.caller_uid
    }

    /// The step the flow stands at.
    pub closed spec fn step(&self) -> WriteStep {
        self.step
    }

    /// Polkit authorized the caller.
    pub closed spec fn is_authorized(&self) -> bool {
        self.authorized
    }

    /// The host was probed and is not immutable.
    pub closed spec fn host_is_writable(&self) -> bool {
        self.host_writable
    }

    /// The id of the snapshot taken, once taken.
    pub closed spec fn snapshot(&self) -> Option<Seq<char>> {
        match self.snapshot_id {
            Some(s) => Some(s@),
            None => None,
        }
    }

    /// The reply owed once the `Completed` event is emitted: the outcome
    /// of the write, once written.
    pub closed spec fn pending_reply(&self) -> Option<Result<(), DaemonError>> {
        self.outcome
    }

    /// The caller's UID, once resolved.
    pub closed spec fn caller(&self) -> u32 {
        self.caller_uid
    }

    /// The flow's record is consistent with its step: each step is reached
    /// only through the steps before it.
    pub closed spec fn wf(&self) -> bool {
        match self.step {
            WriteStep::AwaitCaller | WriteStep::AwaitAuthorization => !self.authorized && !self.host_writable
                && self.snapshot_id is None,
            WriteStep::AwaitHost => self.authorized && !self.host_writable && self.snapshot_id is None,
            WriteStep::AwaitStartedEmitted | WriteStep::AwaitSnapshot => self.authorized && self.host_writable
                && payload_clean(self.key@, self.value@) && self.snapshot_id is None,
            WriteStep::AwaitSnapshotEmitted | WriteStep::AwaitWrite | WriteStep::AwaitFailsafe
            | WriteStep::AwaitRebuild => self.authorized && self.host_writable
                && payload_clean(self.key@, self.value@) && self.snapshot_id is Some,
            WriteStep::AwaitCompletedEmitted => self.authorized && self.host_writable && payload_clean(
                self.key@,
                self.value@,
            ) && self.snapshot_id is Some && self.outcome is Some,
            WriteStep::Done => true,
        }
    }

    /// Start a `SetGrubValue` call: the first action resolves the caller.
    pub fn new(key: String, value: String, etag: String, job_id: String, target_path: String) -> (r: (Self, WriteAction))
        ensures
            r.0.wf(),
            r.0.step() == WriteStep::AwaitCaller,
            r.0.key_text() == key@,
            r.0.value_text() == value@,
            r.0.etag_text() == etag@,
            r.0.job_text() == job_id@,
            r.0.target_text() == target_path@,
            r.1 is ResolveCaller,
    {
        (
            GrubValueWrite {
                key,
                value,
                etag,
                job_id,
                target_path,
                step: WriteStep::AwaitCaller,
                caller_uid: 0,
                authorized: false,
                host_writable: false,
                snapshot_id: None,
                outcome: None,
            },
            WriteAction::ResolveCaller,
        )
    }

    fn event(&self, phase: Phase, exit_code: Option<i32>, stderr_tail: String) -> (e: AuditEvent)
        ensures
            audit_event_of(
                *self,
                e,
                phase,
                match self.snapshot_id {
                    Some(s) => Some(s@),
                    None => None,
                },
                exit_code,
                stderr_tail@,
            ),
    {
        let snapshot_id = match &self.snapshot_id {
            Some(s) => Some(s.clone()),
            None => None,
        };
        AuditEvent {
            message_id: message_ids::SET_GRUB_VALUE,
            operation: "set_grub_value",
            phase,
            target_paths: vec![self.target_path.clone()],
            etag_before: Some(self.etag.clone()),
            etag_after: None,
            snapshot_id,
            exit_code,
            caller_uid: self.caller_uid,
            polkit_action: actions::REWRITE_GRUB,
            job_id: self.job_id.clone(),
            stderr_tail,
        }
    }

    fn finish(&mut self, reply: Result<(), DaemonError>) -> (a: WriteAction)
        ensures
            final(self).step() == WriteStep::Done,
            final(self).wf(),
            final(self).key_text() == old(self).key_text(),
            final(self).value_text() == old(self).value_text(),
            final(self).etag_text() == old(self).etag_text(),
            final(self).job_text() == old(self).job_text(),
            final(self).target_text() == old(self).target_text(),
            final(self).caller() == old(self).caller(),
            final(self).is_authorized() == old(self).is_authorized(),
            final(self).snapshot() == old(self).snapshot(),
            a matches WriteAction::Reply(r) && r == reply,
    {
        self.step = WriteStep::Done;
        WriteAction::Reply(reply)
    }

    /// Take the outcome of the pending action and decide the next one.
    ///
    /// - Caller resolved: ask Polkit for `rewrite-grub`; unresolvable
    ///   callers are answered `PolkitDenied`.
    /// - Authorized: probe the host; a refusal is answered as reported.
    /// - Host probed: an immutable host is refused with
    ///   `ImmutableDistroDetected`; otherwise the payload is checked against
    ///   the blacklist (refused as reported) and the `Started` event is
    ///   emitted.
    /// - `Started` emitted: take the snapshot.
    /// - Snapshot taken: emit `SnapshotTaken`; a failed snapshot aborts the
    ///   call with `EspScanFailed` before anything is written.
    /// - `SnapshotTaken` emitted: write the value.
    /// - Written: refresh the failsafe entry; then regenerate `grub.cfg`.
    ///   The first failure of the three, or success after the last, is the
    ///   outcome: emit `Completed` with exit code 0 or 1 and, on failure,
    ///   the error's text.
    /// - `Completed` emitted: reply with the write's outcome.
    ///
    /// An outcome that does not answer the pending action ends the call
    /// with `Failed`.
    pub fn advance(&mut self, ev: WriteEvent) -> (a: WriteAction)
        requires
            old(self).wf(),
        ensures
            final(self).wf(),
            final(self).key_text() == old(self).key_text(),
            final(self).value_text() == old(self).value_text(),
            final(self).etag_text() == old(self).etag_text(),
            final(self).job_text() == old(self).job_text(),
            final(self).target_text() == old(self).target_text(),
            // No host probe, snapshot or write before Polkit authorized the
            // caller, the host proved writable and the payload clean; no
            // write before a snapshot.
            a is ProbeHost ==> final(self).is_authorized(),
            a is TakeSnapshot ==> final(self).is_authorized() && final(self).host_is_writable()
                && payload_clean(final(self).key_text(), final(self).value_text()),
            a is WriteValue ==> final(self).is_authorized() && final(self).host_is_writable()
                && payload_clean(final(self).key_text(), final(self).value_text()) && final(self).snapshot() is Some,
            a is RefreshFailsafe ==> old(self).step() == WriteStep::AwaitWrite && ev matches WriteEvent::Written(
                Ok(_),
            ),
            a is RebuildMenu ==> old(self).step() == WriteStep::AwaitFailsafe && ev matches WriteEvent::FailsafeRefreshed(
                Ok(_),
            ),
            match (old(self).step(), ev) {
                (WriteStep::AwaitCaller, WriteEvent::CallerResolved(Ok(uid))) => {
                    &&& final(self).step() == WriteStep::AwaitAuthorization
                    &&& final(self).caller() == uid
                    &&& a matches WriteAction::Authorize(act) && act@ == actions::REWRITE_GRUB@
                },
                (WriteStep::AwaitCaller, WriteEvent::CallerResolved(Err(m))) => {
                    &&& final(self).step() == WriteStep::Done
                    &&& a matches WriteAction::Reply(Err(DaemonError::PolkitDenied(x))) && x@ == m@
                },
                (WriteStep::AwaitAuthorization, WriteEvent::Authorized(Ok(()))) => {
                    &&& final(self).step() == WriteStep::AwaitHost
                    &&& a is ProbeHost
                },
                (WriteStep::AwaitAuthorization, WriteEvent::Authorized(Err(e))) => {
                    &&& final(self).step() == WriteStep::Done
                    &&& a matches WriteAction::Reply(Err(d)) && reports(e, d)
                },
                (WriteStep::AwaitHost, WriteEvent::HostProbed(Some(distro))) => {
                    &&& final(self).step() == WriteStep::Done
                    &&& a matches WriteAction::Reply(Err(DaemonError::ImmutableDistroDetected(x)))
                        && x@ == "immutable distribution detected: "@ + distro_tag(distro)
                },
                (WriteStep::AwaitHost, WriteEvent::HostProbed(None)) => if payload_clean(
                    old(self).key_text(),
                    old(self).value_text(),
                ) {
                    &&& final(self).step() == WriteStep::AwaitStartedEmitted
                    &&& a matches WriteAction::Emit(e) && audit_event_of(
                        *final(self),
                        e,
                        Phase::Started,
                        None,
                        None,
                        Seq::empty(),
                    )
                } else {
                    &&& final(self).step() == WriteStep::Done
                    &&& a matches WriteAction::Reply(Err(DaemonError::SecurityPolicyViolation(_)))
                },
                (WriteStep::AwaitStartedEmitted, WriteEvent::Emitted) => {
                    &&& final(self).step() == WriteStep::AwaitSnapshot
                    &&& a is TakeSnapshot
                },
                (WriteStep::AwaitSnapshot, WriteEvent::SnapshotTaken(Ok(id))) => {
                    &&& final(self).step() == WriteStep::AwaitSnapshotEmitted
                    &&& final(self).snapshot() == Some(id@)
                    &&& a matches WriteAction::Emit(e) && audit_event_of(
                        *final(self),
                        e,
                        Phase::SnapshotTaken,
                        Some(id@),
                        None,
                        Seq::empty(),
                    )
                },
                (WriteStep::AwaitSnapshot, WriteEvent::SnapshotTaken(Err(m))) => {
                    &&& final(self).step() == WriteStep::Done
                    &&& a matches WriteAction::Reply(Err(DaemonError::EspScanFailed(x)))
                        && x@ == "snapshot failed: "@ + m@
                },
                (WriteStep::AwaitSnapshotEmitted, WriteEvent::Emitted) => {
                    &&& final(self).step() == WriteStep::AwaitWrite
                    &&& a is WriteValue
                },
                (WriteStep::AwaitWrite, WriteEvent::Written(Ok(()))) => {
                    &&& final(self).step() == WriteStep::AwaitFailsafe
                    &&& a is RefreshFailsafe
                },
                (WriteStep::AwaitFailsafe, WriteEvent::FailsafeRefreshed(Ok(()))) => {
                    &&& final(self).step() == WriteStep::AwaitRebuild
                    &&& a is RebuildMenu
                },
                (WriteStep::AwaitRebuild, WriteEvent::Rebuilt(Ok(()))) => {
                    &&& final(self).step() == WriteStep::AwaitCompletedEmitted
                    &&& final(self).pending_reply() == Some(Ok::<(), DaemonError>(()))
                    &&& a matches WriteAction::Emit(e) && audit_event_of(
                        *final(self),
                        e,
                        Phase::Completed,
                        old(self).snapshot(),
                        Some(0i32),
                        Seq::empty(),
                    )
                },
                (WriteStep::AwaitWrite, WriteEvent::Written(Err(err)))
                | (WriteStep::AwaitFailsafe, WriteEvent::FailsafeRefreshed(Err(err)))
                | (WriteStep::AwaitRebuild, WriteEvent::Rebuilt(Err(err))) => {
                    &&& final(self).step() == WriteStep::AwaitCompletedEmitted
                    &&& final(self).pending_reply() matches Some(Err(d)) && reports(err, d)
                    &&& a matches WriteAction::Emit(e) && final(self).pending_reply() matches Some(Err(d))
                        && audit_event_of(
                            *final(self),
                            e,
                            Phase::Completed,
                            old(self).snapshot(),
                            Some(1i32),
                            daemon_error_text(d),
                        )
                },
                (WriteStep::AwaitCompletedEmitted, WriteEvent::Emitted) => {
                    &&& final(self).step() == WriteStep::Done
                    &&& a matches WriteAction::Reply(r) && old(self).pending_reply() == Some(r)
                },
                _ => {
                    &&& final(self).step() == WriteStep::Done
                    &&& a matches WriteAction::Reply(Err(DaemonError::Failed(x))) && x@ == protocol_error_text()
                },
            },
    {
        match (self.step, ev) {
            (WriteStep::AwaitCaller, WriteEvent::CallerResolved(Ok(uid))) => {
                self.caller_uid = uid;
                self.step = WriteStep::AwaitAuthorization;
                WriteAction::Authorize(actions::REWRITE_GRUB)
            },
            (WriteStep::AwaitCaller, WriteEvent::CallerResolved(Err(m))) => {
                self.finish(Err(DaemonError::PolkitDenied(m)))
            },
            (WriteStep::AwaitAuthorization, WriteEvent::Authorized(Ok(()))) => {
                self.authorized = true;
                self.step = WriteStep::AwaitHost;
                WriteAction::ProbeHost
            },
            (WriteStep::AwaitAuthorization, WriteEvent::Authorized(Err(e))) => {
                let d = to_daemon_error(e);
                self.finish(Err(d))
            },
            (WriteStep::AwaitHost, WriteEvent::HostProbed(Some(distro))) => {
                let e = BootControlError::ImmutableDistroDetected { distro: String::from_str(distro.tag()) };
                let d = to_daemon_error(e);
                self.finish(Err(d))
            },
            (WriteStep::AwaitHost, WriteEvent::HostProbed(None)) => {
                match check_payload(self.key.as_str(), self.value.as_str()) {
                    Err(e) => {
                        let d = to_daemon_error(e);
                        self.finish(Err(d))
                    },
                    Ok(()) => {
                        self.host_writable = true;
                        self.step = WriteStep::AwaitStartedEmitted;
                        let ev = self.event(Phase::Started, None, String::new());
                        WriteAction::Emit(ev)
                    },
                }
            },
            (WriteStep::AwaitStartedEmitted, WriteEvent::Emitted) => {
                self.step = WriteStep::AwaitSnapshot;
                WriteAction::TakeSnapshot
            },
            (WriteStep::AwaitSnapshot, WriteEvent::SnapshotTaken(Ok(id))) => {
                self.snapshot_id = Some(id);
                self.step = WriteStep::AwaitSnapshotEmitted;
                let ev = self.event(Phase::SnapshotTaken, None, String::new());
                WriteAction::Emit(ev)
            },
            (WriteStep::AwaitSnapshot, WriteEvent::SnapshotTaken(Err(m))) => {
                let mut x = String::from_str("snapshot failed: ");
                x.append(m.as_str());
                self.finish(Err(DaemonError::EspScanFailed(x)))
            },
            (WriteStep::AwaitSnapshotEmitted, WriteEvent::Emitted) => {
                self.step = WriteStep::AwaitWrite;
                WriteAction::WriteValue
            },
            (WriteStep::AwaitWrite, WriteEvent::Written(Ok(()))) => {
                self.step = WriteStep::AwaitFailsafe;
                WriteAction::RefreshFailsafe
            },
            (WriteStep::AwaitFailsafe, WriteEvent::FailsafeRefreshed(Ok(()))) => {
                self.step = WriteStep::AwaitRebuild;
                WriteAction::RebuildMenu
            },
            (WriteStep::AwaitWrite, WriteEvent::Written(r))
            | (WriteStep::AwaitFailsafe, WriteEvent::FailsafeRefreshed(r))
            | (WriteStep::AwaitRebuild, WriteEvent::Rebuilt(r)) => {
                let (outcome, code, tail) = match r {
                    Ok(()) => (Ok(()), 0i32, String::new()),
                    Err(e) => {
                        let d = to_daemon_error(e);
                        let t = d.text();
                        (Err(d), 1i32, t)
                    },
                };
                self.outcome = Some(outcome);
                self.step = WriteStep::AwaitCompletedEmitted;
                let ev = self.event(Phase::Completed, Some(code), tail);
                WriteAction::Emit(ev)
            },
            (WriteStep::AwaitCompletedEmitted, WriteEvent::Emitted) => {
                let outcome = match self.outcome.take() {
                    Some(o) => o,
                    None => Err(DaemonError::Failed(String::from_str("write path received an out-of-order event"))),
                };
                self.finish(outcome)
            },
            _ => self.finish(Err(DaemonError::Failed(String::from_str("write path received an out-of-order event")))),
        }
    }
}

} // verus!
