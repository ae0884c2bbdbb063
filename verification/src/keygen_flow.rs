//! Paranoia mode as two state machines: generating the custom key set
//! (`openssl` once for `PK`, `KEK` and `db`, in that order) and merging the
//! `db` certificate into a signed `db` update (`cert-to-efi-sig-list`, then
//! `sign-efi-sig-list`). The daemon runs each command it is handed and
//! reports the run back.
//!
//! The first run that fails ends the call with its refusal, and no later
//! command is handed out.

use vstd::prelude::*;
use vstd::string::StringExecFns;
use crate::error::BootControlError;
use crate::initramfs::{texts, CommandRun, ToolCommand};
use crate::secureboot::{
    joined, keygen_args, keygen_command, keygen_outcome, keyset_in, merge_commands, ParanoiaKeySet,
};

verus! {

/// The run exited successfully.
pub open spec fn run_succeeded(run: CommandRun) -> bool {
    run matches CommandRun::Exited { success: true, .. }
}

/// `e` is the refusal for the failed run `run` of `tool`: a spawn failure
/// is described, a failed run carries its standard error.
pub open spec fn keygen_refusal(e: BootControlError, tool: Seq<char>, run: CommandRun) -> bool {
    match run {
        CommandRun::SpawnFailed(m) => e matches BootControlError::KeyGenerationFailed { reason } && reason@
            == "Failed to execute "@ + tool + ": "@ + m@,
        CommandRun::Exited { stderr, .. } => e matches BootControlError::KeyGenerationFailed { reason }
            && reason@ == stderr@,
    }
}

/// The key pairs in the order they are generated: `PK`, `KEK`, `db`.
pub open spec fn key_name(i: int) -> Seq<char> {
    if i == 0 {
        "PK"@
    } else if i == 1 {
        "KEK"@
    } else {
        "db"@
    }
}

/// `c` is the `openssl` run that generates the `i`-th key pair in `dir`.
pub open spec fn is_keygen_run(c: ToolCommand, openssl: Seq<char>, dir: Seq<char>, i: int) -> bool {
    c.binary@ == openssl && texts(c.args@) == keygen_args(dir, key_name(i))
}

/// `k` is the key set in `dir`.
pub open spec fn is_keyset_in(k: ParanoiaKeySet, dir: Seq<char>) -> bool {
    &&& k.pk_cert@ == joined(dir, "PK.crt"@)
    &&& k.kek_cert@ == joined(dir, "KEK.crt"@)
    &&& k.db_cert@ == joined(dir, "db.crt"@)
    &&& k.pk_key@ == joined(dir, "PK.key"@)
    &&& k.kek_key@ == joined(dir, "KEK.key"@)
    &&& k.db_key@ == joined(dir, "db.key"@)
}

fn key_name_at(i: usize) -> (n: &'static str)
    requires
        i < 3,
    ensures
        n@ == key_name(i as int),
{
    if i == 0 {
        "PK"
    } else if i == 1 {
        "KEK"
    } else {
        "db"
    }
}

/// What the daemon is to do next while generating a key set.
#[derive(Debug)]
pub enum KeygenAction {
    /// Run this `openssl` command and report its run.
    Run(ToolCommand),
    /// Answer the caller.
    Reply(Result<ParanoiaKeySet, BootControlError>),
}

/// One generation of the custom key set into a directory.
#[derive(Debug)]
pub struct KeygenCall {
    openssl: String,
    dir: String,
    issued: usize,
    done: bool,
}

impl KeygenCall {
    /// The `openssl` binary.
    pub closed spec fn openssl_text(&self) -> Seq<char> {
        self.openssl@
    }

    /// The output directory.
    pub closed spec fn dir_text(&self) -> Seq<char> {
        self.dir@
    }

    /// How many `openssl` commands were handed out.
    pub closed spec fn runs_issued(&self) -> nat {
        self.issued as nat
    }

    /// The call has replied.
    pub closed spec fn is_done(&self) -> bool {
        self.done
    }

    /// At least one and at most three commands were handed out.
    pub closed spec fn wf(&self) -> bool {
        1 <= self.issued <= 3
    }

    /// Start generating the key set into `output_dir` with the binary
    /// `openssl`: the first command generates `PK`.
    pub fn new(openssl: String, output_dir: String) -> (r: (Self, KeygenAction))
        ensures
            r.0.wf(),
            !r.0.is_done(),
            r.0.openssl_text() == openssl@,
            r.0.dir_text() == output_dir@,
            r.0.runs_issued() == 1,
            r.1 matches KeygenAction::Run(c) && is_keygen_run(c, openssl@, output_dir@, 0),
    {
        let c = keygen_command(openssl.as_str(), output_dir.as_str(), key_name_at(0));
        (KeygenCall { openssl, dir: output_dir, issued: 1, done: false }, KeygenAction::Run(c))
    }

    /// Take the run of the last command handed out. A failed run ends the
    /// call with its refusal; a successful one hands out the next key
    /// pair's command, or, after `db`, answers with the key set. A run
    /// reported after the reply is refused.
    pub fn advance(&mut self, run: CommandRun) -> (a: KeygenAction)
        requires
            old(self).wf(),
        ensures
            final(self).wf(),
            final(self).openssl_text() == old(self).openssl_text(),
            final(self).dir_text() == old(self).dir_text(),
            old(self).is_done() ==> (final(self).is_done() && final(self).runs_issued() == old(self).runs_issued()
                && (a matches KeygenAction::Reply(Err(e)) && e is KeyGenerationFailed)),
            !old(self).is_done() && !run_succeeded(run) ==> (final(self).is_done() && final(self).runs_issued()
                == old(self).runs_issued()
                && (a matches KeygenAction::Reply(Err(e)) && keygen_refusal(e, "openssl"@, run))),
            !old(self).is_done() && run_succeeded(run) && old(self).runs_issued() < 3 ==> (!final(self).is_done()
                && final(self).runs_issued() == old(self).runs_issued() + 1 && (a matches KeygenAction::Run(c)
                && is_keygen_run(c, old(self).openssl_text(), old(self).dir_text(), old(self).runs_issued() as int))),
            !old(self).is_done() && run_succeeded(run) && old(self).runs_issued() == 3 ==> (final(self).is_done()
                && final(self).runs_issued() == 3 && (a matches KeygenAction::Reply(Ok(k)) && is_keyset_in(k, old(self).dir_text()))),
            a is Run ==> !final(self).is_done(),
    {
        if self.done {
            return KeygenAction::Reply(
                Err(BootControlError::KeyGenerationFailed { reason: String::from_str("key generation already answered") }),
            );
        }
        match keygen_outcome("openssl", run) {
            Err(e) => {
                self.done = true;
                KeygenAction::Reply(Err(e))
            },
            Ok(()) => {
                if self.issued < 3 {
                    let c = keygen_command(self.openssl.as_str(), self.dir.as_str(), key_name_at(self.issued));
                    self.issued = self.issued + 1;
                    KeygenAction::Run(c)
                } else {
                    self.done = true;
                    KeygenAction::Reply(Ok(keyset_in(self.dir.as_str())))
                }
            },
        }
    }
}

/// Where a merge stands.
#[derive(Debug, Clone, Copy, PartialEq, Eq, Structural)]
pub enum MergeStep {
    AwaitConvert,
    AwaitSign,
    Done,
}

/// What the daemon is to do next while merging.
#[derive(Debug)]
pub enum MergeAction {
    /// Run this command and report its run.
    Run(ToolCommand),
    /// Answer the caller with the signed update's path.
    Reply(Result<String, BootControlError>),
}

/// `c` converts the key set's `db` certificate into `<dir>/db.esl`.
pub open spec fn is_convert_command(c: ToolCommand, keyset: ParanoiaKeySet, dir: Seq<char>, cert_to_efi: Seq<char>) -> bool {
    c.binary@ == cert_to_efi && texts(c.args@) == seq![keyset.db_cert@, joined(dir, "db.esl"@)]
}

/// `c` signs `<dir>/db.esl` with the key set's KEK into
/// `<dir>/db-merged.auth`.
pub open spec fn is_sign_command(c: ToolCommand, keyset: ParanoiaKeySet, dir: Seq<char>, sign_efi: Seq<char>) -> bool {
    c.binary@ == sign_efi && texts(c.args@) == seq![
        "-k"@,
        keyset.kek_key@,
        "-c"@,
        keyset.kek_cert@,
        "db"@,
        joined(dir, "db.esl"@),
        joined(dir, "db-merged.auth"@),
    ]
}

/// One merge of the key set's `db` certificate into a signed `db` update.
#[derive(Debug)]
pub struct MergeCall {
    sign: Option<ToolCommand>,
    auth: String,
    step: MergeStep,
}

impl MergeCall {
    /// Where the merge stands.
    pub closed spec fn step(&self) -> MergeStep {
        self.step
    }

    /// The signing command still to hand out.
    pub closed spec fn pending_sign(&self) -> Option<ToolCommand> {
        self.sign
    }

    /// The path of the signed update.
    pub closed spec fn auth_text(&self) -> Seq<char> {
        self.auth@
    }

    /// While the conversion is awaited, the signing command is pending.
    pub closed spec fn wf(&self) -> bool {
        self.step == MergeStep::AwaitConvert ==> self.sign is Some
    }

    /// Start merging into `output_dir` with the two efitools binaries: the
    /// conversion runs first; the signing command waits for its success.
    pub fn new(keyset: &ParanoiaKeySet, output_dir: &str, cert_to_efi: &str, sign_efi: &str) -> (r: (
        Self,
        MergeAction,
    ))
        ensures
            r.0.wf(),
            r.0.step() == MergeStep::AwaitConvert,
            r.0.auth_text() == joined(output_dir@, "db-merged.auth"@),
            r.0.pending_sign() matches Some(s) && is_sign_command(s, *keyset, output_dir@, sign_efi@),
            r.1 matches MergeAction::Run(c) && is_convert_command(c, *keyset, output_dir@, cert_to_efi@),
    {
        let (mut cmds, auth) = merge_commands(keyset, output_dir, cert_to_efi, sign_efi);
        let sign = cmds.pop();
        let convert = cmds.pop();
        match (convert, sign) {
            (Some(c), Some(s)) => (MergeCall { sign: Some(s), auth, step: MergeStep::AwaitConvert }, MergeAction::Run(c)),
            _ => {
                proof {
                    assert(false);
                }
                (MergeCall { sign: None, auth, step: MergeStep::Done }, MergeAction::Reply(Ok(String::new())))
            },
        }
    }

    /// Take the run of the command handed out. The conversion's failure
    /// ends the merge with its refusal and nothing is signed; its success
    /// hands out the signing command. The signing's failure is refused the
    /// same way; its success answers with the signed update's path. A run
    /// reported after the reply is refused.
    pub fn advance(&mut self, run: CommandRun) -> (a: MergeAction)
        requires
            old(self).wf(),
        ensures
            final(self).wf(),
            final(self).auth_text() == old(self).auth_text(),
            match old(self).step() {
                MergeStep::AwaitConvert => if run_succeeded(run) {
                    &&& final(self).step() == MergeStep::AwaitSign
                    &&& old(self).pending_sign() == Some(a->Run_0)
                    &&& a is Run
                } else {
                    &&& final(self).step() == MergeStep::Done
                    &&& a matches MergeAction::Reply(Err(e)) && keygen_refusal(e, "cert-to-efi-sig-list"@, run)
                },
                MergeStep::AwaitSign => {
                    &&& final(self).step() == MergeStep::Done
                    &&& if run_succeeded(run) {
                        a matches MergeAction::Reply(Ok(p)) && p@ == old(self).auth_text()
                    } else {
                        a matches MergeAction::Reply(Err(e)) && keygen_refusal(e, "sign-efi-sig-list"@, run)
                    }
                },
                MergeStep::Done => {
                    &&& final(self).step() == MergeStep::Done
                    &&& a matches MergeAction::Reply(Err(e)) && e is KeyGenerationFailed
                },
            },
    {
        match self.step {
            MergeStep::AwaitConvert => match keygen_outcome("cert-to-efi-sig-list", run) {
                Err(e) => {
                    self.step = MergeStep::Done;
                    MergeAction::Reply(Err(e))
                },
                Ok(()) => {
                    let s = self.sign.take();
                    self.step = MergeStep::AwaitSign;
                    match s {
                        Some(c) => MergeAction::Run(c),
                        None => {
                            proof {
                                assert(false);
                            }
                            MergeAction::Reply(Ok(String::new()))
                        },
                    }
                },
            },
            MergeStep::AwaitSign => {
                self.step = MergeStep::Done;
                match keygen_outcome("sign-efi-sig-list", run) {
                    Err(e) => MergeAction::Reply(Err(e)),
                    Ok(()) => MergeAction::Reply(Ok(self.auth.clone())),
                }
            },
            MergeStep::Done => MergeAction::Reply(
                Err(BootControlError::KeyGenerationFailed { reason: String::from_str("merge already answered") }),
            ),
        }
    }
}

} // verus!
