//! The daemon's `SignAndEnrollUki` call as a state machine: admission (the
//! caller, Polkit's `enroll-mok` action, a writable host), then the MOK key
//! pre-flight, the signing of the UKI, the MokManager enrolment request,
//! and the reply.
//!
//! Nothing is signed before the call was admitted and both MOK files were
//! found, and no enrolment is requested for an image that failed to sign.

use vstd::prelude::*;
use vstd::string::StringExecFns;
use crate::call_gate::{admission_step, CallGate, Clearance, GateAction, GateEvent, GateStep, HostPolicy};
use crate::error::{reports, to_daemon_error, BootControlError, DaemonError};
use crate::polkit::actions;
use crate::secureboot::check_key_pair;

verus! {

/// Where the call stands.
#[derive(Debug, Clone, Copy, PartialEq, Eq, Structural)]
pub enum EnrollStep {
    Admitting,
    AwaitKeys,
    AwaitSigned,
    AwaitEnrolled,
    Done,
}

/// What the daemon reports back after an action.
#[derive(Debug)]
pub enum EnrollEvent {
    /// The outcome of an admission step.
    Admission(GateEvent),
    /// Whether the MOK key and certificate files exist.
    KeysChecked { key_exists: bool, cert_exists: bool },
    /// The outcome of signing the UKI.
    Signed(Result<(), BootControlError>),
    /// The outcome of requesting the MOK enrolment.
    Enrolled(Result<(), BootControlError>),
}

/// What the daemon is to do next.
#[derive(Debug)]
pub enum EnrollAction {
    /// An admission step (resolve the caller, ask Polkit, probe the host).
    Admission(GateAction),
    /// Check that the MOK key and certificate files exist.
    CheckKeys,
    /// Sign the UKI with the MOK key and certificate.
    Sign,
    /// Request enrolment of the MOK certificate.
    Enroll,
    /// Answer the D-Bus call.
    Reply(Result<(), DaemonError>),
}

/// One `SignAndEnrollUki` call.
#[derive(Debug)]
pub struct EnrollCall {
    gate: CallGate,
    step: EnrollStep,
    uki_path: String,
    key_path: String,
    cert_path: String,
}

/// The text of an out-of-order event's refusal.
pub open spec fn enroll_protocol_error() -> Seq<char> {
    "enrolment received an out-of-order event"@
}

/// The admission action a call's action answers to.
pub open spec fn enroll_admission_answer(a: EnrollAction) -> GateAction {
    match a {
        EnrollAction::Admission(x) => x,
        EnrollAction::Reply(Err(d)) => GateAction::Refuse(d),
        _ => GateAction::Proceed(Clearance::Writable),
    }
}

/// The refusal of the MOK pre-flight: the key when it is missing, else the
/// certificate.
pub open spec fn missing_mok_file(key: Seq<char>, cert: Seq<char>, key_exists: bool, d: DaemonError) -> bool {
    d matches DaemonError::MokKeyNotFound(m) && m@ == "MOK key not found: "@ + (if !key_exists {
        key
    } else {
        cert
    })
}

impl EnrollCall {
    /// The UKI to sign.
    pub closed spec fn uki_text(&self) -> Seq<char> {
        self.uki_path@
    }

    /// The MOK key's path.
    pub closed spec fn key_text(&self) -> Seq<char> {
        self.key_path@
    }

    /// The MOK certificate's path.
    pub closed spec fn cert_text(&self) -> Seq<char> {
        self.cert_path@
    }

    /// The step the call stands at.
    pub closed spec fn step(&self) -> EnrollStep {
        self.step
    }

    /// The admission's record.
    pub closed spec fn admission(&self) -> CallGate {
        self.gate
    }

    /// The call's record is consistent with its step.
    pub closed spec fn wf(&self) -> bool {
        &&& self.gate.wf()
        &&& self.gate.required_action() == actions::ENROLL_MOK@
        &&& self.gate.host_policy() == HostPolicy::RequireWritable
        &&& match self.step {
            EnrollStep::Admitting => self.gate.step() != GateStep::Passed,
            EnrollStep::Done => true,
            _ => self.gate.step() == GateStep::Passed && self.gate.is_authorized(),
        }
    }

    /// Start a `SignAndEnrollUki(uki_path)` call with the MOK files at
    /// `key_path` and `cert_path`: the first action resolves the caller.
    pub fn new(uki_path: String, key_path: String, cert_path: String) -> (r: (Self, EnrollAction))
        ensures
            r.0.wf(),
            r.0.step() == EnrollStep::Admitting,
            r.0.admission().step() == GateStep::AwaitCaller,
            r.0.uki_text() == uki_path@,
            r.0.key_text() == key_path@,
            r.0.cert_text() == cert_path@,
            r.1 matches EnrollAction::Admission(GateAction::ResolveCaller),
    {
        let (gate, first) = CallGate::new(actions::ENROLL_MOK, HostPolicy::RequireWritable);
        (EnrollCall { gate, step: EnrollStep::Admitting, uki_path, key_path, cert_path }, EnrollAction::Admission(first))
    }

    /// The UKI to sign.
    pub fn uki_path(&self) -> (r: &str)
        ensures
            r@ == self.uki_text(),
    {
        self.uki_path.as_str()
    }

    fn reply(&mut self, r: Result<(), DaemonError>) -> (a: EnrollAction)
        requires
            old(self).wf(),
        ensures
            final(self).wf(),
            final(self).step() == EnrollStep::Done,
            final(self).admission() == old(self).admission(),
            final(self).uki_text() == old(self).uki_text(),
            final(self).key_text() == old(self).key_text(),
            final(self).cert_text() == old(self).cert_text(),
            a matches EnrollAction::Reply(x) && x == r,
    {
        self.step = EnrollStep::Done;
        EnrollAction::Reply(r)
    }

    /// Take the outcome of the pending action and decide the next one.
    ///
    /// - Admission: forwarded to the admission; once admitted, check the
    ///   MOK files; a refusal is the reply.
    /// - Keys checked: sign when both files exist; otherwise reply
    ///   `MokKeyNotFound` naming the missing one (the key first).
    /// - Signed: request the enrolment; a failure is the reply.
    /// - Enrolled: reply with its outcome.
    ///
    /// Any other event ends the call with `Failed`.
    pub fn advance(&mut self, ev: EnrollEvent) -> (a: EnrollAction)
        requires
            old(self).wf(),
        ensures
            final(self).wf(),
            final(self).uki_text() == old(self).uki_text(),
            final(self).key_text() == old(self).key_text(),
            final(self).cert_text() == old(self).cert_text(),
            a is CheckKeys || a is Sign || a is Enroll ==> final(self).admission().is_authorized()
                && final(self).admission().step() == GateStep::Passed,
            match (old(self).step(), ev) {
                (EnrollStep::Admitting, EnrollEvent::Admission(g)) => {
                    &&& admission_step(old(self).admission(), final(self).admission(), g, enroll_admission_answer(a))
                    &&& match a {
                        EnrollAction::Admission(x) => final(self).step() == EnrollStep::Admitting
                            && !(x is Proceed) && !(x is Refuse),
                        EnrollAction::CheckKeys => final(self).step() == EnrollStep::AwaitKeys,
                        EnrollAction::Reply(r) => final(self).step() == EnrollStep::Done && r is Err,
                        _ => false,
                    }
                },
                (EnrollStep::AwaitKeys, EnrollEvent::KeysChecked { key_exists, cert_exists }) => if key_exists
                    && cert_exists {
                    &&& final(self).step() == EnrollStep::AwaitSigned
                    &&& a is Sign
                } else {
                    &&& final(self).step() == EnrollStep::Done
                    &&& a matches EnrollAction::Reply(Err(d)) && missing_mok_file(
                        old(self).key_text(),
                        old(self).cert_text(),
                        key_exists,
                        d,
                    )
                },
                (EnrollStep::AwaitSigned, EnrollEvent::Signed(Ok(()))) => {
                    &&& final(self).step() == EnrollStep::AwaitEnrolled
                    &&& a is Enroll
                },
                (EnrollStep::AwaitSigned, EnrollEvent::Signed(Err(e))) => {
                    &&& final(self).step() == EnrollStep::Done
                    &&& a matches EnrollAction::Reply(Err(d)) && reports(e, d)
                },
                (EnrollStep::AwaitEnrolled, EnrollEvent::Enrolled(Ok(()))) => {
                    &&& final(self).step() == EnrollStep::Done
                    &&& a matches EnrollAction::Reply(Ok(()))
                },
                (EnrollStep::AwaitEnrolled, EnrollEvent::Enrolled(Err(e))) => {
                    &&& final(self).step() == EnrollStep::Done
                    &&& a matches EnrollAction::Reply(Err(d)) && reports(e, d)
                },
                _ => {
                    &&& final(self).step() == EnrollStep::Done
                    &&& a matches EnrollAction::Reply(Err(DaemonError::Failed(x))) && x@
                        == enroll_protocol_error()
                },
            },
    {
        match (self.step, ev) {
            (EnrollStep::Admitting, EnrollEvent::Admission(g)) => {
                let ga = self.gate.advance(g);
                match ga {
                    GateAction::Proceed(_) => {
                        self.step = EnrollStep::AwaitKeys;
                        EnrollAction::CheckKeys
                    },
                    GateAction::Refuse(d) => self.reply(Err(d)),
                    other => EnrollAction::Admission(other),
                }
            },
            (EnrollStep::AwaitKeys, EnrollEvent::KeysChecked { key_exists, cert_exists }) => {
                match check_key_pair(self.key_path.as_str(), self.cert_path.as_str(), key_exists, cert_exists) {
                    Ok(()) => {
                        self.step = EnrollStep::AwaitSigned;
                        EnrollAction::Sign
                    },
                    Err(e) => {
                        let d = to_daemon_error(e);
                        self.reply(Err(d))
                    },
                }
            },
            (EnrollStep::AwaitSigned, EnrollEvent::Signed(Ok(()))) => {
                self.step = EnrollStep::AwaitEnrolled;
                EnrollAction::Enroll
            },
            (EnrollStep::AwaitSigned, EnrollEvent::Signed(Err(e))) => {
                let d = to_daemon_error(e);
                self.reply(Err(d))
            },
            (EnrollStep::AwaitEnrolled, EnrollEvent::Enrolled(r)) => {
                match r {
                    Ok(()) => self.reply(Ok(())),
                    Err(e) => {
                        let d = to_daemon_error(e);
                        self.reply(Err(d))
                    },
                }
            },
            _ => self.reply(Err(DaemonError::Failed(String::from_str("enrolment received an out-of-order event")))),
        }
    }
}

} // verus!
