//! The admission sequence every privileged D-Bus method runs before it
//! touches the host, as a state machine: resolve the caller's UID, ask
//! Polkit for the method's action, then probe whether the host is an
//! immutable distribution. The daemon performs each step and hands back
//! its outcome; the decisions between the steps are made here.
//!
//! Nothing is cleared before Polkit authorized the caller and the host
//! probe came back acceptable for the method's host policy.

use vstd::prelude::*;
use vstd::string::StringExecFns;
use crate::error::{reports, to_daemon_error, BootControlError, DaemonError};
use crate::immutable_distro::{distro_tag, ImmutableDistro};

verus! {

/// How a method treats an immutable host.
#[derive(Debug, Clone, Copy, PartialEq, Eq, Structural)]
pub enum HostPolicy {
    /// Refuse every immutable host.
    RequireWritable,
    /// Kernel-parameter edits: delegate to `rpm-ostree kargs` on an
    /// rpm-ostree host, refuse every other immutable host.
    KernelParams,
}

/// Where a cleared call may write.
#[derive(Debug, Clone, Copy, PartialEq, Eq, Structural)]
pub enum Clearance {
    /// The host is mutable: write the files directly.
    Writable,
    /// An rpm-ostree host: hand the change to `rpm-ostree kargs`.
    DelegateToRpmOstree,
}

/// Where the admission stands.
#[derive(Debug, Clone, Copy, PartialEq, Eq, Structural)]
pub enum GateStep {
    AwaitCaller,
    AwaitAuthorization,
    AwaitHost,
    /// Admitted: the method may proceed.
    Passed,
    /// Refused: the call is answered with an error.
    Closed,
}

/// What the daemon reports back after a step.
#[derive(Debug)]
pub enum GateEvent {
    /// The caller's Unix UID, or why it could not be resolved.
    CallerResolved(Result<u32, String>),
    /// Polkit's answer.
    Authorized(Result<(), BootControlError>),
    /// The host's immutable family, if any.
    HostProbed(Option<ImmutableDistro>),
}

/// What the daemon is to do next.
#[derive(Debug)]
pub enum GateAction {
    /// Resolve the caller's Unix UID from the message header.
    ResolveCaller,
    /// Ask Polkit to authorize the caller for this action.
    Authorize(&'static str),
    /// Probe whether the host is an immutable distribution.
    ProbeHost,
    /// Run the method, writing as cleared.
    Proceed(Clearance),
    /// Answer the call with this error.
    Refuse(DaemonError),
}

/// The admission of one call.
#[derive(Debug)]
pub struct CallGate {
    action: &'static str,
    policy: HostPolicy,
    step: GateStep,
    caller_uid: u32,
    authorized: bool,
}

/// The refusal text of an event that does not answer the pending step.
pub open spec fn gate_protocol_error() -> Seq<char> {
    "admission received an out-of-order event"@
}

/// What a host probe means for a policy: the clearance, or `None` when
/// the host is refused.
pub open spec fn host_clearance(policy: HostPolicy, host: Option<ImmutableDistro>) -> Option<Clearance> {
    match host {
        None => Some(Clearance::Writable),
        Some(ImmutableDistro::RpmOstree) => if policy == HostPolicy::KernelParams {
            Some(Clearance::DelegateToRpmOstree)
        } else {
            None
        },
        Some(_) => None,
    }
}

/// One admission step: from `g`, the event `ev` leads to `h` and the
/// action `a`.
pub open spec fn admission_step(g: CallGate, h: CallGate, ev: GateEvent, a: GateAction) -> bool {
    match (g.step(), ev) {
        (GateStep::AwaitCaller, GateEvent::CallerResolved(Ok(uid))) => {
            &&& h.step() == GateStep::AwaitAuthorization
            &&& h.caller() == uid
            &&& a matches GateAction::Authorize(act) && act@ == g.required_action()
        },
        (GateStep::AwaitCaller, GateEvent::CallerResolved(Err(m))) => {
            &&& h.step() == GateStep::Closed
            &&& a matches GateAction::Refuse(DaemonError::PolkitDenied(x)) && x@ == m@
        },
        (GateStep::AwaitAuthorization, GateEvent::Authorized(Ok(()))) => {
            &&& h.step() == GateStep::AwaitHost
            &&& h.caller() == g.caller()
            &&& a is ProbeHost
        },
        (GateStep::AwaitAuthorization, GateEvent::Authorized(Err(e))) => {
            &&& h.step() == GateStep::Closed
            &&& a matches GateAction::Refuse(d) && reports(e, d)
        },
        (GateStep::AwaitHost, GateEvent::HostProbed(host)) => match host_clearance(
            g.host_policy(),
            host,
        ) {
            Some(c) => {
                &&& h.step() == GateStep::Passed
                &&& h.caller() == g.caller()
                &&& a == GateAction::Proceed(c)
            },
            None => {
                &&& h.step() == GateStep::Closed
                &&& a matches GateAction::Refuse(DaemonError::ImmutableDistroDetected(x)) && x@
                    == "immutable distribution detected: "@ + distro_tag(host->0)
            },
        },
        _ => {
            &&& h.step() == GateStep::Closed
            &&& a matches GateAction::Refuse(DaemonError::Failed(x)) && x@ == gate_protocol_error()
        },
    }
}

impl CallGate {
    /// The Polkit action the method requires.
    pub closed spec fn required_action(&self) -> Seq<char> {
        self.action@
    }

    /// The method's host policy.
    pub closed spec fn host_policy(&self) -> HostPolicy {
        self.policy
    }

    /// The step the admission stands at.
    pub closed spec fn step(&self) -> GateStep {
        self.step
    }

    /// The caller's UID, once resolved.
    pub closed spec fn caller(&self) -> u32 {
        self.caller_uid
    }

    /// Polkit authorized the caller for the required action.
    pub closed spec fn is_authorized(&self) -> bool {
        self.authorized
    }

    /// Every step past authorization was reached through it.
    pub closed spec fn wf(&self) -> bool {
        match self.step {
            GateStep::AwaitCaller | GateStep::AwaitAuthorization => !self.authorized,
            GateStep::AwaitHost | GateStep::Passed => self.authorized,
            GateStep::Closed => true,
        }
    }

    /// Start admitting a call that requires `action` under `policy`: the
    /// first step resolves the caller.
    pub fn new(action: &'static str, policy: HostPolicy) -> (r: (Self, GateAction))
        ensures
            r.0.wf(),
            r.0.step() == GateStep::AwaitCaller,
            r.0.required_action() == action@,
            r.0.host_policy() == policy,
            !r.0.is_authorized(),
            r.1 is ResolveCaller,
    {
        (
            CallGate { action, policy, step: GateStep::AwaitCaller, caller_uid: 0, authorized: false },
            GateAction::ResolveCaller,
        )
    }

    /// The caller's UID (meaningful once resolved).
    pub fn caller_uid(&self) -> (r: u32)
        ensures
            r == self.caller(),
    {
        self.caller_uid
    }

    /// Whether the call was admitted.
    pub fn passed(&self) -> (r: bool)
        ensures
            r == (self.step() == GateStep::Passed),
    {
        match self.step {
            GateStep::Passed => true,
            _ => false,
        }
    }

    fn close(&mut self, d: DaemonError) -> (a: GateAction)
        ensures
            final(self).step() == GateStep::Closed,
            final(self).wf(),
            final(self).required_action() == old(self).required_action(),
            final(self).host_policy() == old(self).host_policy(),
            final(self).caller() == old(self).caller(),
            final(self).is_authorized() == old(self).is_authorized(),
            a matches GateAction::Refuse(x) && x == d,
    {
        self.step = GateStep::Closed;
        GateAction::Refuse(d)
    }

    /// Take the outcome of the pending step and decide the next one.
    ///
    /// - Caller resolved: ask Polkit; an unresolvable caller is refused
    ///   with `PolkitDenied`.
    /// - Authorized: probe the host; a Polkit refusal is answered as
    ///   reported.
    /// - Host probed: proceed when the policy clears the host; otherwise
    ///   refuse with `ImmutableDistroDetected` naming its family.
    ///
    /// Any other event closes the admission with `Failed`.
    pub fn advance(&mut self, ev: GateEvent) -> (a: GateAction)
        requires
            old(self).wf(),
        ensures
            final(self).wf(),
            final(self).required_action() == old(self).required_action(),
            final(self).host_policy() == old(self).host_policy(),
            a is ProbeHost ==> final(self).is_authorized(),
            a is Proceed ==> final(self).is_authorized() && final(self).step() == GateStep::Passed,
            admission_step(*old(self), *final(self), ev, a),
    {
        match (self.step, ev) {
            (GateStep::AwaitCaller, GateEvent::CallerResolved(Ok(uid))) => {
                self.caller_uid = uid;
                self.step = GateStep::AwaitAuthorization;
                GateAction::Authorize(self.action)
            },
            (GateStep::AwaitCaller, GateEvent::CallerResolved(Err(m))) => {
                self.close(DaemonError::PolkitDenied(m))
            },
            (GateStep::AwaitAuthorization, GateEvent::Authorized(Ok(()))) => {
                self.authorized = true;
                self.step = GateStep::AwaitHost;
                GateAction::ProbeHost
            },
            (GateStep::AwaitAuthorization, GateEvent::Authorized(Err(e))) => {
                let d = to_daemon_error(e);
                self.close(d)
            },
            (GateStep::AwaitHost, GateEvent::HostProbed(host)) => {
                match host {
                    None => {
                        self.step = GateStep::Passed;
                        GateAction::Proceed(Clearance::Writable)
                    },
                    Some(d) => {
                        let delegate = match (self.policy, d) {
                            (HostPolicy::KernelParams, ImmutableDistro::RpmOstree) => true,
                            _ => false,
                        };
                        if delegate {
                            self.step = GateStep::Passed;
                            GateAction::Proceed(Clearance::DelegateToRpmOstree)
                        } else {
                            let e = BootControlError::ImmutableDistroDetected { distro: String::from_str(d.tag()) };
                            let x = to_daemon_error(e);
                            self.close(x)
                        }
                    },
                }
            },
            _ => self.close(DaemonError::Failed(String::from_str("admission received an out-of-order event"))),
        }
    }
}

} // verus!
