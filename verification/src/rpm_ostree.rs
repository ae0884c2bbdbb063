//! Kernel arguments on rpm-ostree hosts, where `rpm-ostree kargs` owns the
//! command line: reading it, the ETag check, and the append/delete
//! commands. Running `rpm-ostree` is the daemon's I/O.

use vstd::prelude::*;
use vstd::string::StringExecFns;
use vstd::string::StringSliceAdditionalSpecFns;
use crate::error::BootControlError;
use crate::etag::{compute_etag_str, etag_of};
use crate::initramfs::{texts, ToolCommand};
use crate::sanitize::{hits, validate_kernel_param};
use crate::text::{chars_eq, chars_of};
use crate::uki::{params_of, parse_cmdline};

verus! {

/// The tool that owns the command line.
pub const RPM_OSTREE: &'static str = "rpm-ostree";

/// What running `rpm-ostree` gave: it could not be spawned (the system's
/// description), or it ran with this success flag, output and standard
/// error.
#[derive(Debug, Clone, PartialEq, Eq)]
pub enum OutputRun {
    SpawnFailed(String),
    Exited { success: bool, stdout: String, stderr: String },
}

/// The refusal for an `rpm-ostree` that could not be spawned.
pub open spec fn spawn_refusal(e: BootControlError, m: Seq<char>) -> bool {
    e matches BootControlError::ToolNotFound { tool } && tool@ == "rpm-ostree (spawn failed: "@ + m + ")"@
}

fn spawn_error(m: &String) -> (e: BootControlError)
    ensures
        spawn_refusal(e, m@),
{
    let mut tool = String::from_str("rpm-ostree (spawn failed: ");
    tool.append(m.as_str());
    tool.append(")");
    BootControlError::ToolNotFound { tool }
}

/// The command that reads the kernel arguments: `rpm-ostree kargs`.
pub fn kargs_read_command() -> (c: ToolCommand)
    ensures
        c.binary@ == RPM_OSTREE@,
        texts(c.args@) == seq!["kargs"@],
{
    let args = vec![String::from_str("kargs")];
    assert(texts(args@) =~= seq!["kargs"@]);
    ToolCommand { binary: String::from_str(RPM_OSTREE), args }
}

/// The kernel arguments and their ETag from a run of `rpm-ostree kargs`:
/// the whitespace-separated parameters of its output and the ETag of that
/// output. A spawn failure is `ToolNotFound`; a failed run is
/// `EspScanFailed` carrying its standard error.
pub fn kargs_from_output(run: OutputRun) -> (r: Result<(Vec<String>, String), BootControlError>)
    ensures
        match run {
            OutputRun::SpawnFailed(m) => r matches Err(e) && spawn_refusal(e, m@),
            OutputRun::Exited { success, stdout, stderr } => if success {
                r matches Ok((params, etag)) && params@.map_values(|p: String| p@) == params_of(stdout@)
                    && etag@ == etag_of(vstd::utf8::encode_utf8(stdout@))
            } else {
                r matches Err(e) && e matches BootControlError::EspScanFailed { reason } && reason@
                    == "`rpm-ostree kargs` failed: "@ + stderr@
            },
        },
{
    match run {
        OutputRun::SpawnFailed(m) => Err(spawn_error(&m)),
        OutputRun::Exited { success, stdout, stderr } => {
            if success {
                let etag = compute_etag_str(stdout.as_str());
                let params = parse_cmdline(stdout.as_str());
                Ok((params, etag))
            } else {
                let mut reason = String::from_str("`rpm-ostree kargs` failed: ");
                reason.append(stderr.as_str());
                Err(BootControlError::EspScanFailed { reason })
            }
        },
    }
}

/// The ETag check of an rpm-ostree write: the caller's ETag must equal the
/// current one, or the write is refused with `StateMismatch` carrying both.
pub fn etag_check(expected: &str, current: &str) -> (r: Result<(), BootControlError>)
    ensures
        r is Ok <==> expected@ == current@,
        r matches Err(e) ==> (e matches BootControlError::StateMismatch { expected: x, actual: a } && x@
            == expected@ && a@ == current@),
{
    let a = chars_of(expected);
    let b = chars_of(current);
    if chars_eq(a.as_slice(), b.as_slice()) {
        Ok(())
    } else {
        Err(BootControlError::StateMismatch { expected: String::from_str(expected), actual: String::from_str(current) })
    }
}

/// A change of the kernel arguments.
#[derive(Debug, Clone, Copy, PartialEq, Eq, Structural)]
pub enum KargsChange {
    Append,
    Delete,
}

/// The option text of a change: `--append=<param>` or `--delete=<param>`.
pub open spec fn kargs_option(change: KargsChange, param: Seq<char>) -> Seq<char> {
    match change {
        KargsChange::Append => "--append="@ + param,
        KargsChange::Delete => "--delete="@ + param,
    }
}

/// The command that applies a change: `rpm-ostree kargs --append=<param>`
/// or `rpm-ostree kargs --delete=<param>`.
pub fn kargs_change_command(change: KargsChange, param: &str) -> (c: ToolCommand)
    ensures
        c.binary@ == RPM_OSTREE@,
        texts(c.args@) == seq!["kargs"@, kargs_option(change, param@)],
{
    let mut opt = match change {
        KargsChange::Append => String::from_str("--append="),
        KargsChange::Delete => String::from_str("--delete="),
    };
    opt.append(param);
    let args = vec![String::from_str("kargs"), opt];
    assert(texts(args@) =~= seq!["kargs"@, kargs_option(change, param@)]);
    ToolCommand { binary: String::from_str(RPM_OSTREE), args }
}

/// `r` is what the run `run` of the change means.
pub open spec fn change_outcome_of(change: KargsChange, param: Seq<char>, run: OutputRun, r: Result<(), BootControlError>) -> bool {
    match run {
        OutputRun::SpawnFailed(m) => r matches Err(e) && spawn_refusal(e, m@),
        OutputRun::Exited { success, stdout, stderr } => if success {
            r is Ok
        } else {
            r matches Err(e) && e matches BootControlError::EspScanFailed { reason } && reason@
                == "`rpm-ostree kargs "@ + kargs_option(change, param) + "` failed: "@ + stderr@
        },
    }
}

/// What running a change means: success when it exited successfully; a
/// spawn failure is `ToolNotFound`; a failed run is `EspScanFailed` naming
/// the command and carrying its standard error.
pub fn kargs_change_outcome(change: KargsChange, param: &str, run: OutputRun) -> (r: Result<(), BootControlError>)
    ensures
        match run {
            OutputRun::SpawnFailed(m) => r matches Err(e) && spawn_refusal(e, m@),
            OutputRun::Exited { success, stdout, stderr } => if success {
                r is Ok
            } else {
                r matches Err(e) && e matches BootControlError::EspScanFailed { reason } && reason@
                    == "`rpm-ostree kargs "@ + kargs_option(change, param@) + "` failed: "@ + stderr@
            },
        },
{
    match run {
        OutputRun::SpawnFailed(m) => Err(spawn_error(&m)),
        OutputRun::Exited { success, stdout, stderr } => {
            if success {
                Ok(())
            } else {
                let mut reason = String::from_str("`rpm-ostree kargs ");
                match change {
                    KargsChange::Append => reason.append("--append="),
                    KargsChange::Delete => reason.append("--delete="),
                }
                reason.append(param);
                reason.append("` failed: ");
                reason.append(stderr.as_str());
                Err(BootControlError::EspScanFailed { reason })
            }
        },
    }
}

/// Where a kernel-argument change on an rpm-ostree host stands.
#[derive(Debug, Clone, Copy, PartialEq, Eq, Structural)]
pub enum KargsStep {
    AwaitRead,
    AwaitChange,
    Done,
}

/// What the daemon is to do next.
#[derive(Debug)]
pub enum KargsAction {
    /// Run this command to read the current kernel arguments.
    RunRead(ToolCommand),
    /// Run this command to apply the change.
    Run(ToolCommand),
    /// Answer the caller.
    Reply(Result<(), BootControlError>),
}

/// What running the pending command gave.
#[derive(Debug)]
pub enum KargsEvent {
    /// The run of the read command.
    ReadDone(OutputRun),
    /// The run of the change command.
    ChangeDone(OutputRun),
}

/// One change of the kernel arguments through `rpm-ostree kargs`: the
/// blacklist (for an append), then a fresh read of the arguments, the ETag
/// check against it, and only then the change itself.
#[derive(Debug)]
pub struct KargsCall {
    change: KargsChange,
    param: String,
    etag: String,
    step: KargsStep,
}

/// The parameter holds no blacklisted pattern.
pub open spec fn param_clean(param: Seq<char>) -> bool {
    forall|i: int| !hits(param, i)
}

/// `c` is the command that reads the kernel arguments.
pub open spec fn is_read_command(c: ToolCommand) -> bool {
    c.binary@ == RPM_OSTREE@ && texts(c.args@) == seq!["kargs"@]
}

/// `c` is the command that applies the change.
pub open spec fn is_change_command(c: ToolCommand, change: KargsChange, param: Seq<char>) -> bool {
    c.binary@ == RPM_OSTREE@ && texts(c.args@) == seq!["kargs"@, kargs_option(change, param)]
}

/// The text of an out-of-order event's refusal.
pub open spec fn kargs_protocol_error() -> Seq<char> {
    "rpm-ostree change received an out-of-order event"@
}

impl KargsCall {
    /// The change.
    pub closed spec fn change_kind(&self) -> KargsChange {
        self.change
    }

    /// The parameter to append or delete.
    pub closed spec fn param_text(&self) -> Seq<char> {
        self.param@
    }

    /// The caller's ETag of the kernel arguments.
    pub closed spec fn etag_text(&self) -> Seq<char> {
        self.etag@
    }

    /// The step the call stands at.
    pub closed spec fn step(&self) -> KargsStep {
        self.step
    }

    /// An append still under way carries a clean parameter.
    pub closed spec fn wf(&self) -> bool {
        self.step != KargsStep::Done && self.change == KargsChange::Append ==> param_clean(self.param@)
    }

    /// Start the change: an append of a blacklisted parameter is refused
    /// before anything runs; otherwise the current arguments are read.
    pub fn new(change: KargsChange, param: String, etag: String) -> (r: (Self, KargsAction))
        ensures
            r.0.wf(),
            r.0.change_kind() == change,
            r.0.param_text() == param@,
            r.0.etag_text() == etag@,
            change == KargsChange::Append && !param_clean(param@) ==> (r.0.step() == KargsStep::Done
                && (r.1 matches KargsAction::Reply(Err(e)) && e is SecurityPolicyViolation)),
            !(change == KargsChange::Append && !param_clean(param@)) ==> (r.0.step() == KargsStep::AwaitRead
                && (r.1 matches KargsAction::RunRead(c) && is_read_command(c))),
    {
        if change == KargsChange::Append {
            match validate_kernel_param(param.as_str()) {
                Err(e) => {
                    return (KargsCall { change, param, etag, step: KargsStep::Done }, KargsAction::Reply(Err(e)));
                },
                Ok(()) => {},
            }
        }
        (KargsCall { change, param, etag, step: KargsStep::AwaitRead }, KargsAction::RunRead(kargs_read_command()))
    }

    /// Take the run of the pending command and decide the next action.
    ///
    /// - Read done: a failed read is the reply; a read whose ETag is not
    ///   the caller's is refused with `StateMismatch` and nothing is
    ///   changed; otherwise the change command runs.
    /// - Change done: the reply is what its run means.
    ///
    /// Any other event ends the call with `EspScanFailed`.
    pub fn advance(&mut self, ev: KargsEvent) -> (a: KargsAction)
        requires
            old(self).wf(),
        ensures
            final(self).wf(),
            final(self).change_kind() == old(self).change_kind(),
            final(self).param_text() == old(self).param_text(),
            final(self).etag_text() == old(self).etag_text(),
            a is Run ==> old(self).step() == KargsStep::AwaitRead && (old(self).change_kind()
                == KargsChange::Append ==> param_clean(old(self).param_text())) && (ev matches KargsEvent::ReadDone(
                OutputRun::Exited { success: true, stdout, .. },
            ) && etag_of(vstd::utf8::encode_utf8(stdout@)) == old(self).etag_text()),
            match (old(self).step(), ev) {
                (KargsStep::AwaitRead, KargsEvent::ReadDone(run)) => match run {
                    OutputRun::SpawnFailed(m) => final(self).step() == KargsStep::Done
                        && (a matches KargsAction::Reply(Err(e)) && spawn_refusal(e, m@)),
                    OutputRun::Exited { success, stdout, stderr } => if !success {
                        &&& final(self).step() == KargsStep::Done
                        &&& a matches KargsAction::Reply(Err(e)) && e matches BootControlError::EspScanFailed {
                            reason,
                        } && reason@ == "`rpm-ostree kargs` failed: "@ + stderr@
                    } else if etag_of(vstd::utf8::encode_utf8(stdout@)) == old(self).etag_text() {
                        &&& final(self).step() == KargsStep::AwaitChange
                        &&& a matches KargsAction::Run(c) && is_change_command(
                            c,
                            old(self).change_kind(),
                            old(self).param_text(),
                        )
                    } else {
                        &&& final(self).step() == KargsStep::Done
                        &&& a matches KargsAction::Reply(Err(e)) && e matches BootControlError::StateMismatch {
                            expected,
                            actual,
                        } && expected@ == old(self).etag_text() && actual@ == etag_of(
                            vstd::utf8::encode_utf8(stdout@),
                        )
                    },
                },
                (KargsStep::AwaitChange, KargsEvent::ChangeDone(run)) => {
                    &&& final(self).step() == KargsStep::Done
                    &&& a matches KargsAction::Reply(r) && change_outcome_of(
                        old(self).change_kind(),
                        old(self).param_text(),
                        run,
                        r,
                    )
                },
                _ => {
                    &&& final(self).step() == KargsStep::Done
                    &&& a matches KargsAction::Reply(Err(e)) && e matches BootControlError::EspScanFailed {
                        reason,
                    } && reason@ == kargs_protocol_error()
                },
            },
    {
        match (self.step, ev) {
            (KargsStep::AwaitRead, KargsEvent::ReadDone(run)) => {
                let ghost g = run;
                match kargs_from_output(run) {
                    Err(e) => {
                        self.step = KargsStep::Done;
                        KargsAction::Reply(Err(e))
                    },
                    Ok((_, current)) => {
                        match etag_check(self.etag.as_str(), current.as_str()) {
                            Ok(()) => {
                                self.step = KargsStep::AwaitChange;
                                KargsAction::Run(kargs_change_command(self.change, self.param.as_str()))
                            },
                            Err(e) => {
                                self.step = KargsStep::Done;
                                KargsAction::Reply(Err(e))
                            },
                        }
                    },
                }
            },
            (KargsStep::AwaitChange, KargsEvent::ChangeDone(run)) => {
                self.step = KargsStep::Done;
                KargsAction::Reply(kargs_change_outcome(self.change, self.param.as_str(), run))
            },
            _ => {
                self.step = KargsStep::Done;
                KargsAction::Reply(
                    Err(
                        BootControlError::EspScanFailed {
                            reason: String::from_str("rpm-ostree change received an out-of-order event"),
                        },
                    ),
                )
            },
        }
    }
}

} // verus!
