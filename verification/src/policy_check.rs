//! Startup validation of the Polkit policy file.
//!
//! A daemon upgraded after an old policy file would silently lose granular
//! authorization, so the daemon refuses to start unless every per-intent
//! action it needs is declared. The check is a substring scan for
//! `id="<action>"`; reading the file is the caller's I/O.

use vstd::prelude::*;
use crate::polkit::actions;
use crate::text::{chars_of, contains_exec, contains_seq, push_all, quoted_list, quoted_list_text, string_of};
use crate::lines::views;
use vstd::string::StringExecFns;

verus! {

/// Canonical location of the Polkit policy file on a packaged install.
pub const DEFAULT_POLICY_PATH: &'static str = "/usr/share/polkit-1/actions/org.bootcontrol.policy";

/// The legacy single action that older policy files declared.
pub const LEGACY_MANAGE_ACTION: &'static str = "org.bootcontrol.manage";

/// The per-intent action IDs the policy file must declare, in order.
pub open spec fn required_action_ids() -> Seq<Seq<char>> {
    seq![
        actions::REWRITE_GRUB@,
        actions::WRITE_BOOTLOADER@,
        actions::ENROLL_MOK@,
        actions::RESTORE_SNAPSHOT@,
    ]
}

/// The action IDs the daemon needs declared, in order.
pub fn required_actions() -> (v: Vec<&'static str>)
    ensures
        v@.map_values(|a: &'static str| a@) == required_action_ids(),
{
    let v = vec![
        actions::REWRITE_GRUB,
        actions::WRITE_BOOTLOADER,
        actions::ENROLL_MOK,
        actions::RESTORE_SNAPSHOT,
    ];
    assert(v@.map_values(|a: &'static str| a@) =~= required_action_ids());
    v
}

/// The text `id="<action>"` that declares `action`.
pub open spec fn declaration(action: Seq<char>) -> Seq<char> {
    "id=\""@ + action + "\""@
}

/// `content` declares `action`.
pub open spec fn declares(content: Seq<char>, action: Seq<char>) -> bool {
    contains_seq(content, declaration(action))
}

/// The actions of `ids`, in order, whose declaration in `content` is
/// `wanted` (present when `wanted`, absent otherwise).
pub open spec fn sift(content: Seq<char>, ids: Seq<Seq<char>>, wanted: bool) -> Seq<Seq<char>>
    decreases ids.len(),
{
    if ids.len() == 0 {
        Seq::empty()
    } else {
        let rest = sift(content, ids.drop_last(), wanted);
        if declares(content, ids.last()) == wanted {
            rest.push(ids.last())
        } else {
            rest
        }
    }
}

/// The required actions that `content` declares, in order.
pub open spec fn present_actions(content: Seq<char>) -> Seq<Seq<char>> {
    sift(content, required_action_ids(), true)
}

/// The required actions that `content` does not declare, in order.
pub open spec fn missing_actions(content: Seq<char>) -> Seq<Seq<char>> {
    sift(content, required_action_ids(), false)
}

/// Reason why a policy file is unfit for daemon startup.
#[derive(Debug, Clone, PartialEq, Eq)]
pub enum PolicyError {
    /// File does not exist or cannot be read.
    Missing(String),
    /// File declares only the legacy `org.bootcontrol.manage` action.
    LegacyManageOnly,
    /// File is missing one or more required per-intent actions.
    IncompleteActions {
        /// Action IDs declared in the file.
        present: Vec<String>,
        /// Action IDs the daemon expected but did not find.
        missing: Vec<String>,
    },
}

/// What a policy file declaring only the legacy action is refused with.
pub const LEGACY_ONLY_MESSAGE: &'static str = "polkit policy file declares only the deprecated 'org.bootcontrol.manage' action. Daemon requires the six per-intent actions declared in packaging/polkit/org.bootcontrol.policy. Refusing to start — fix the packaging or re-install.";

/// The human-readable description of a policy error; the action lists are
/// written quoted, in square brackets.
pub open spec fn policy_message(e: PolicyError) -> Seq<char> {
    match e {
        PolicyError::Missing(detail) => "polkit policy file unreadable: "@ + detail@,
        PolicyError::LegacyManageOnly => LEGACY_ONLY_MESSAGE@,
        PolicyError::IncompleteActions { present, missing } => "polkit policy file is missing required actions: "@
            + quoted_list(views(missing@)) + " (present: "@ + quoted_list(views(present@))
            + "). Refusing to start."@,
    }
}

impl PolicyError {
    /// The human-readable description of this error.
    pub fn message(&self) -> (m: String)
        ensures
            m@ == policy_message(*self),
    {
        match self {
            PolicyError::Missing(detail) => {
                let mut v = chars_of("polkit policy file unreadable: ");
                let d = chars_of(detail.as_str());
                push_all(&mut v, d.as_slice());
                string_of(v)
            },
            PolicyError::LegacyManageOnly => String::from_str(LEGACY_ONLY_MESSAGE),
            PolicyError::IncompleteActions { present, missing } => {
                let mut v = chars_of("polkit policy file is missing required actions: ");
                let m = quoted_list_text(missing.as_slice());
                push_all(&mut v, m.as_slice());
                let mid = chars_of(" (present: ");
                push_all(&mut v, mid.as_slice());
                let p = quoted_list_text(present.as_slice());
                push_all(&mut v, p.as_slice());
                let end = chars_of("). Refusing to start.");
                push_all(&mut v, end.as_slice());
                string_of(v)
            },
        }
    }
}

/// What validating `content` yields.
pub open spec fn policy_verdict_ok(content: Seq<char>) -> bool {
    missing_actions(content).len() == 0
}

/// The file is a legacy one: it declares `manage` and none of the required
/// actions.
pub open spec fn is_legacy_only(content: Seq<char>) -> bool {
    declares(content, LEGACY_MANAGE_ACTION@) && present_actions(content).len() == 0
}

fn declaration_of(action: &str) -> (d: Vec<char>)
    ensures
        d@ == declaration(action@),
{
    let mut d: Vec<char> = chars_of("id=\"");
    let a = chars_of(action);
    push_all(&mut d, a.as_slice());
    let q = chars_of("\"");
    push_all(&mut d, q.as_slice());
    d
}

/// Validate a Polkit policy file content string.
///
/// Succeeds iff every required action appears as `id="..."` in `content`.
/// A file that declares only the legacy `manage` action is refused as
/// `LegacyManageOnly`; any other incomplete file as `IncompleteActions`,
/// listing the declared and the missing required actions in order.
pub fn validate_policy_content(content: &str) -> (r: Result<(), PolicyError>)
    ensures
        match r {
            Ok(()) => policy_verdict_ok(content@),
            Err(PolicyError::LegacyManageOnly) => !policy_verdict_ok(content@) && is_legacy_only(
                content@,
            ),
            Err(PolicyError::IncompleteActions { present, missing }) => {
                &&& !policy_verdict_ok(content@)
                &&& !is_legacy_only(content@)
                &&& views(present@) == present_actions(content@)
                &&& views(missing@) == missing_actions(content@)
            },
            Err(PolicyError::Missing(_)) => false,
        },
{
    let text = chars_of(content);
    let manage = declaration_of(LEGACY_MANAGE_ACTION);
    let declares_manage = contains_exec(text.as_slice(), manage.as_slice());
    let required = required_actions();
    let ghost ids = required_action_ids();
    let mut present: Vec<String> = Vec::new();
    let mut missing: Vec<String> = Vec::new();
    let mut i: usize = 0;
    assert(ids.take(0) =~= Seq::<Seq<char>>::empty());
    while i < required.len()
        invariant
            i <= required@.len(),
            required@.len() == ids.len(),
            forall|k: int| 0 <= k < ids.len() ==> (#[trigger] required@[k])@ == ids[k],
            ids == required_action_ids(),
            text@ == content@,
            views(present@) == sift(content@, ids.take(i as int), true),
            views(missing@) == sift(content@, ids.take(i as int), false),
        decreases required@.len() - i,
    {
        let action = required[i];
        let needle = declaration_of(action);
        let found = contains_exec(text.as_slice(), needle.as_slice());
        let ghost t = ids.take(i + 1);
        assert(t.drop_last() =~= ids.take(i as int));
        assert(t.last() == action@);
        if found {
            present.push(String::from_str(action));
            assert(views(present@) =~= sift(content@, ids.take(i as int), true).push(action@));
        } else {
            missing.push(String::from_str(action));
            assert(views(missing@) =~= sift(content@, ids.take(i as int), false).push(action@));
        }
        i = i + 1;
    }
    assert(ids.take(ids.len() as int) =~= ids);
    if missing.len() > 0 {
        if declares_manage && present.len() == 0 {
            return Err(PolicyError::LegacyManageOnly);
        }
        return Err(PolicyError::IncompleteActions { present, missing });
    }
    Ok(())
}

} // verus!
