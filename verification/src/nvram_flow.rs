//! The daemon's `BackupNvram` call as a state machine: admission (the
//! caller, Polkit's `enroll-mok` action, a writable host), then the choice
//! of the backup directory, the backup itself, and the reply listing the
//! files written.
//!
//! No backup is written outside the managed backup root: the destination
//! must lie inside it, without `..` components, and none of its existing
//! ancestors inside the root (nor the destination itself) may be a
//! symbolic link, or the call is refused before anything is read or
//! written.

use vstd::prelude::*;
use vstd::string::StringExecFns;
use crate::call_gate::{admission_step, CallGate, Clearance, GateAction, GateEvent, GateStep, HostPolicy};
use crate::error::{reports, to_daemon_error, BootControlError, DaemonError};
use crate::polkit::actions;
use crate::restore_flow::{join_onto, path_joined};
use crate::snapshot::{is_absolute, is_lexically_managed, lexically_managed, AncestorCheck};
use crate::text::{decimal, string_of, u128_to_decimal, chars_of, push_all};

verus! {

/// Where the call stands.
#[derive(Debug, Clone, Copy, PartialEq, Eq, Structural)]
pub enum BackupStep {
    Admitting,
    AwaitClock,
    AwaitAncestors,
    AwaitBackup,
    Done,
}

/// What the daemon reports back after an action.
#[derive(Debug)]
pub enum BackupEvent {
    /// The outcome of an admission step.
    Admission(GateEvent),
    /// Nanoseconds since the Unix epoch, or why the clock could not be read.
    ClockRead(Result<u128, String>),
    /// What inspecting the destination's existing ancestors found.
    AncestorsChecked(AncestorCheck),
    /// The files the backup wrote, or why it failed.
    BackedUp(Result<Vec<String>, BootControlError>),
}

/// What the daemon is to do next.
#[derive(Debug)]
pub enum BackupAction {
    /// An admission step (resolve the caller, ask Polkit, probe the host).
    Admission(GateAction),
    /// Read the system clock.
    ReadClock,
    /// Inspect the destination and its existing ancestors below the root
    /// for symbolic links.
    CheckAncestors(String),
    /// Back up the Secure Boot variables into this directory.
    Backup(String),
    /// Answer the D-Bus call with the files written.
    Reply(Result<Vec<String>, DaemonError>),
}

/// One `BackupNvram(target_dir)` call.
#[derive(Debug)]
pub struct BackupCall {
    gate: CallGate,
    step: BackupStep,
    root: String,
    target_dir: String,
    dest: String,
}

/// The text of an out-of-order event's refusal.
pub open spec fn backup_protocol_error() -> Seq<char> {
    "backup received an out-of-order event"@
}

/// The fresh directory a backup without a destination goes to.
pub open spec fn timestamped_dir(root: Seq<char>, nanos: u128) -> Seq<char> {
    path_joined(root, "backup-"@ + decimal(nanos as nat))
}

/// Two backups without a destination, started at different instants, go
/// to different directories, so a default backup never overwrites an
/// earlier one.
pub proof fn lemma_default_backups_are_distinct(root: Seq<char>, n1: u128, n2: u128)
    requires
        n1 != n2,
    ensures
        timestamped_dir(root, n1) != timestamped_dir(root, n2),
{
    reveal_strlit("backup-");
    let a = "backup-"@ + decimal(n1 as nat);
    let b = "backup-"@ + decimal(n2 as nat);
    assert(a[0] == 'b' && b[0] == 'b');
    if timestamped_dir(root, n1) == timestamped_dir(root, n2) {
        let p = timestamped_dir(root, n1);
        let k = p.len() - a.len();
        assert(p.subrange(k, p.len() as int) =~= a);
        assert(timestamped_dir(root, n2).subrange(k, p.len() as int) =~= b);
        assert(a.subrange(7, a.len() as int) =~= decimal(n1 as nat));
        assert(b.subrange(7, b.len() as int) =~= decimal(n2 as nat));
        crate::text::lemma_decimal_injective(n1 as nat, n2 as nat);
    }
}

/// The refusal of a destination outside the backup root.
pub open spec fn outside_root_refusal(root: Seq<char>) -> Seq<char> {
    "backup destination must be inside "@ + root + " without '..'"@
}

/// The refusal of a destination reached through a symbolic link.
pub open spec fn symlink_refusal(target: Seq<char>) -> Seq<char> {
    "backup destination must not pass through a symbolic link: "@ + target
}

/// The next action for the destination `target`: the inspection of its
/// ancestors when it lies inside the root, the refusal otherwise.
pub open spec fn destination_action(root: Seq<char>, target: Seq<char>, a: BackupAction) -> bool {
    if lexically_managed(target, seq![root]) {
        a matches BackupAction::CheckAncestors(t) && t@ == target
    } else {
        a matches BackupAction::Reply(Err(DaemonError::NvramBackupFailed(m))) && m@ == outside_root_refusal(root)
    }
}

/// The admission action a call's action answers to: an admission step
/// itself, the refusal replied when the admission closed, and otherwise
/// the clearance that let the call go on.
pub open spec fn backup_admission_answer(a: BackupAction, closed: bool) -> GateAction {
    match a {
        BackupAction::Admission(x) => x,
        BackupAction::Reply(Err(d)) if closed => GateAction::Refuse(d),
        _ => GateAction::Proceed(Clearance::Writable),
    }
}

impl BackupCall {
    /// The managed backup root.
    pub closed spec fn root_text(&self) -> Seq<char> {
        self.root@
    }

    /// The destination the caller asked for (empty for a fresh one).
    pub closed spec fn target_text(&self) -> Seq<char> {
        self.target_dir@
    }

    /// The destination chosen, once it is.
    pub closed spec fn dest_text(&self) -> Seq<char> {
        self.dest@
    }

    /// The step the call stands at.
    pub closed spec fn step(&self) -> BackupStep {
        self.step
    }

    /// The admission's record.
    pub closed spec fn admission(&self) -> CallGate {
        self.gate
    }

    /// The call's record is consistent with its step.
    pub closed spec fn wf(&self) -> bool {
        &&& self.gate.wf()
        &&& self.gate.required_action() == actions::ENROLL_MOK@
        &&& self.gate.host_policy() == HostPolicy::RequireWritable
        &&& match self.step {
            BackupStep::Admitting => self.gate.step() != GateStep::Passed,
            BackupStep::Done => true,
            BackupStep::AwaitAncestors | BackupStep::AwaitBackup => self.gate.step() == GateStep::Passed
                && self.gate.is_authorized() && lexically_managed(self.dest@, seq![self.root@]),
            _ => self.gate.step() == GateStep::Passed && self.gate.is_authorized(),
        }
    }

    /// Start a `BackupNvram(target_dir)` call whose backups belong under the
    /// absolute directory `root`: the first action resolves the caller.
    pub fn new(root: String, target_dir: String) -> (r: (Self, BackupAction))
        requires
            is_absolute(root@),
        ensures
            r.0.wf(),
            r.0.step() == BackupStep::Admitting,
            r.0.admission().step() == GateStep::AwaitCaller,
            r.0.root_text() == root@,
            r.0.target_text() == target_dir@,
            r.1 matches BackupAction::Admission(GateAction::ResolveCaller),
    {
        let (gate, first) = CallGate::new(actions::ENROLL_MOK, HostPolicy::RequireWritable);
        (
            BackupCall { gate, step: BackupStep::Admitting, root, target_dir, dest: String::new() },
            BackupAction::Admission(first),
        )
    }

    fn reply(&mut self, r: Result<Vec<String>, DaemonError>) -> (a: BackupAction)
        requires
            old(self).wf(),
        ensures
            final(self).wf(),
            final(self).step() == BackupStep::Done,
            final(self).admission() == old(self).admission(),
            final(self).root_text() == old(self).root_text(),
            final(self).target_text() == old(self).target_text(),
            a matches BackupAction::Reply(x) && x == r,
    {
        self.step = BackupStep::Done;
        BackupAction::Reply(r)
    }

    fn to_destination(&mut self, target: String) -> (a: BackupAction)
        requires
            old(self).wf(),
            old(self).step() == BackupStep::AwaitClock,
        ensures
            final(self).wf(),
            final(self).admission() == old(self).admission(),
            final(self).root_text() == old(self).root_text(),
            final(self).target_text() == old(self).target_text(),
            destination_action(old(self).root_text(), target@, a),
            a is CheckAncestors ==> final(self).step() == BackupStep::AwaitAncestors && final(self).dest_text()
                == target@,
            a is Reply ==> final(self).step() == BackupStep::Done,
    {
        let roots = vec![self.root.clone()];
        assert(roots@.map_values(|a: String| a@) =~= seq![self.root@]);
        if is_lexically_managed(target.as_str(), roots.as_slice()) {
            self.step = BackupStep::AwaitAncestors;
            self.dest = target.clone();
            BackupAction::CheckAncestors(target)
        } else {
            let mut m = String::from_str("backup destination must be inside ");
            m.append(self.root.as_str());
            m.append(" without '..'");
            self.reply(Err(DaemonError::NvramBackupFailed(m)))
        }
    }

    /// Take the outcome of the pending action and decide the next one.
    ///
    /// - Admission: forwarded to the admission; once admitted, an empty
    ///   destination asks for the clock and any other is checked; a
    ///   refusal is the reply.
    /// - Clock read: the destination is `<root>/backup-<nanoseconds>`; an
    ///   unreadable clock is refused with `NvramBackupFailed`.
    /// - A destination outside the root, or climbing with `..`, is refused
    ///   with `NvramBackupFailed`; for any other, its ancestors are checked.
    /// - Ancestors checked: a destination reached through a symbolic link,
    ///   or whose ancestors could not be inspected, is refused with
    ///   `NvramBackupFailed`; any other is backed up.
    /// - Backed up: reply with the files written, or the failure as
    ///   reported.
    ///
    /// Any other event ends the call with `Failed`.
    pub fn advance(&mut self, ev: BackupEvent) -> (a: BackupAction)
        requires
            old(self).wf(),
        ensures
            final(self).wf(),
            final(self).root_text() == old(self).root_text(),
            final(self).target_text() == old(self).target_text(),
            a is ReadClock || a is Backup || a is CheckAncestors ==> final(self).admission().is_authorized()
                && final(self).admission().step() == GateStep::Passed,
            a matches BackupAction::Backup(t) ==> lexically_managed(t@, seq![final(self).root_text()])
                && old(self).step() == BackupStep::AwaitAncestors && ev == BackupEvent::AncestorsChecked(
                AncestorCheck::Clear,
            ) && t@ == old(self).dest_text(),
            match (old(self).step(), ev) {
                (BackupStep::Admitting, BackupEvent::Admission(g)) => {
                    &&& admission_step(
                        old(self).admission(),
                        final(self).admission(),
                        g,
                        backup_admission_answer(a, final(self).admission().step() == GateStep::Closed),
                    )
                    &&& match a {
                        BackupAction::Admission(x) => final(self).step() == BackupStep::Admitting
                            && !(x is Proceed) && !(x is Refuse),
                        BackupAction::ReadClock => final(self).step() == BackupStep::AwaitClock
                            && old(self).target_text().len() == 0,
                        BackupAction::CheckAncestors(t) => old(self).target_text().len() > 0 && t@
                            == old(self).target_text(),
                        BackupAction::Backup(_) => false,
                        BackupAction::Reply(r) => final(self).step() == BackupStep::Done && r is Err
                            && (final(self).admission().step() == GateStep::Passed ==> (old(self).target_text().len() > 0
                            && destination_action(old(self).root_text(), old(self).target_text(), a))),
                    }
                },
                (BackupStep::AwaitClock, BackupEvent::ClockRead(Ok(nanos))) => {
                    destination_action(old(self).root_text(), timestamped_dir(old(self).root_text(), nanos), a)
                },
                (BackupStep::AwaitClock, BackupEvent::ClockRead(Err(m))) => {
                    &&& final(self).step() == BackupStep::Done
                    &&& a matches BackupAction::Reply(Err(DaemonError::NvramBackupFailed(x))) && x@ == m@
                },
                (BackupStep::AwaitAncestors, BackupEvent::AncestorsChecked(c)) => {
                    &&& final(self).step() == match c {
                        AncestorCheck::Clear => BackupStep::AwaitBackup,
                        _ => BackupStep::Done,
                    }
                    &&& match c {
                        AncestorCheck::Clear => a matches BackupAction::Backup(t) && t@ == old(self).dest_text(),
                        AncestorCheck::Symlink => a matches BackupAction::Reply(Err(DaemonError::NvramBackupFailed(m)))
                            && m@ == symlink_refusal(old(self).dest_text()),
                        AncestorCheck::Failed(x) => a matches BackupAction::Reply(
                            Err(DaemonError::NvramBackupFailed(m)),
                        ) && m@ == x@,
                    }
                },
                (BackupStep::AwaitBackup, BackupEvent::BackedUp(Ok(files))) => {
                    &&& final(self).step() == BackupStep::Done
                    &&& a matches BackupAction::Reply(Ok(v)) && v == files
                },
                (BackupStep::AwaitBackup, BackupEvent::BackedUp(Err(e))) => {
                    &&& final(self).step() == BackupStep::Done
                    &&& a matches BackupAction::Reply(Err(d)) && reports(e, d)
                },
                _ => {
                    &&& final(self).step() == BackupStep::Done
                    &&& a matches BackupAction::Reply(Err(DaemonError::Failed(x))) && x@
                        == backup_protocol_error()
                },
            },
    {
        match (self.step, ev) {
            (BackupStep::Admitting, BackupEvent::Admission(g)) => {
                let ga = self.gate.advance(g);
                match ga {
                    GateAction::Proceed(_) => {
                        if self.target_dir.unicode_len() == 0 {
                            self.step = BackupStep::AwaitClock;
                            BackupAction::ReadClock
                        } else {
                            self.step = BackupStep::AwaitClock;
                            let t = self.target_dir.clone();
                            self.to_destination(t)
                        }
                    },
                    GateAction::Refuse(d) => self.reply(Err(d)),
                    other => BackupAction::Admission(other),
                }
            },
            (BackupStep::AwaitClock, BackupEvent::ClockRead(Ok(nanos))) => {
                let mut name = chars_of("backup-");
                let digits = u128_to_decimal(nanos);
                push_all(&mut name, digits.as_slice());
                let name = string_of(name);
                let target = join_onto(self.root.as_str(), name.as_str());
                self.to_destination(target)
            },
            (BackupStep::AwaitClock, BackupEvent::ClockRead(Err(m))) => {
                self.reply(Err(DaemonError::NvramBackupFailed(m)))
            },
            (BackupStep::AwaitAncestors, BackupEvent::AncestorsChecked(c)) => {
                match c {
                    AncestorCheck::Clear => {
                        self.step = BackupStep::AwaitBackup;
                        BackupAction::Backup(self.dest.clone())
                    },
                    AncestorCheck::Symlink => {
                        let mut m = String::from_str("backup destination must not pass through a symbolic link: ");
                        m.append(self.dest.as_str());
                        self.reply(Err(DaemonError::NvramBackupFailed(m)))
                    },
                    AncestorCheck::Failed(x) => self.reply(Err(DaemonError::NvramBackupFailed(x))),
                }
            },
            (BackupStep::AwaitBackup, BackupEvent::BackedUp(r)) => {
                match r {
                    Ok(files) => self.reply(Ok(files)),
                    Err(e) => {
                        let d = to_daemon_error(e);
                        self.reply(Err(d))
                    },
                }
            },
            _ => self.reply(Err(DaemonError::Failed(String::from_str("backup received an out-of-order event")))),
        }
    }
}

} // verus!
