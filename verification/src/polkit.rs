//! The closed set of Polkit actions the daemon will ask authorization for.
//!
//! The D-Bus round trip to the Polkit authority is the daemon's own I/O;
//! what is decided here is whether an action ID may be submitted at all.
//! An action outside the closed set is refused before Polkit is asked,
//! so a typo or a retired action can never fall through to an implicit
//! default of the system's Polkit configuration.

use vstd::prelude::*;
use crate::error::BootControlError;
use crate::policy_check::{declares, policy_verdict_ok, required_action_ids, sift};
use crate::text::{chars_eq, chars_of};

pub mod actions;

verus! {

/// The action IDs the authorization gate accepts, in order.
pub open spec fn known_action_ids() -> Seq<Seq<char>> {
    seq![
        actions::REWRITE_GRUB@,
        actions::WRITE_BOOTLOADER@,
        actions::ENROLL_MOK@,
        actions::RESTORE_SNAPSHOT@,
    ]
}

/// The action IDs the authorization gate accepts.
pub fn known_actions() -> (v: Vec<&'static str>)
    ensures
        v@.map_values(|a: &'static str| a@) == known_action_ids(),
{
    let v = vec![
        actions::REWRITE_GRUB,
        actions::WRITE_BOOTLOADER,
        actions::ENROLL_MOK,
        actions::RESTORE_SNAPSHOT,
    ];
    assert(v@.map_values(|a: &'static str| a@) =~= known_action_ids());
    v
}

/// Decide whether an action may be submitted to Polkit at all: one
/// outside the closed set is refused with `PolkitDenied` without asking
/// Polkit; a known action may be submitted.
pub fn check_action(action: &str) -> (r: Result<(), BootControlError>)
    ensures
        r is Ok <==> known_action_ids().contains(action@),
        r is Err ==> r == Err::<(), BootControlError>(BootControlError::PolkitDenied),
{
    let known = known_actions();
    let a = chars_of(action);
    let mut i: usize = 0;
    while i < known.len()
        invariant
            i <= known@.len(),
            known@.map_values(|x: &'static str| x@) == known_action_ids(),
            a@ == action@,
            forall|k: int| 0 <= k < i ==> known_action_ids()[k] != action@,
        decreases known@.len() - i,
    {
        let k = chars_of(known[i]);
        assert(known_action_ids()[i as int] == known@[i as int]@);
        if chars_eq(k.as_slice(), a.as_slice()) {
            assert(known_action_ids()[i as int] == action@);
            return Ok(());
        }
        i = i + 1;
    }
    assert(!known_action_ids().contains(action@));
    Err(BootControlError::PolkitDenied)
}

/// The authorization gate and the startup policy validation describe the
/// same closed set of actions, in the same order.
pub proof fn lemma_known_actions_are_required()
    ensures
        known_action_ids() == required_action_ids(),
        known_action_ids().to_set() == required_action_ids().to_set(),
{
}

proof fn lemma_nothing_missing(content: Seq<char>, ids: Seq<Seq<char>>)
    requires
        sift(content, ids, false).len() == 0,
    ensures
        forall|k: int| 0 <= k < ids.len() ==> declares(content, #[trigger] ids[k]),
    decreases ids.len(),
{
    if ids.len() > 0 {
        let rest = sift(content, ids.drop_last(), false);
        if !declares(content, ids.last()) {
            assert(sift(content, ids, false).len() == rest.len() + 1);
        }
        lemma_nothing_missing(content, ids.drop_last());
        assert forall|k: int| 0 <= k < ids.len() implies declares(content, #[trigger] ids[k]) by {
            if k < ids.len() - 1 {
                assert(ids[k] == ids.drop_last()[k]);
            }
        }
    }
}

/// Every action that passes the authorization gate is declared by every
/// policy file that passes startup validation: a daemon that started never
/// asks Polkit about an action its policy file does not declare.
pub proof fn lemma_accepted_action_is_declared(content: Seq<char>, action: Seq<char>)
    requires
        policy_verdict_ok(content),
        known_action_ids().contains(action),
    ensures
        declares(content, action),
{
    lemma_nothing_missing(content, required_action_ids());
    let k = choose|k: int| 0 <= k < known_action_ids().len() && known_action_ids()[k] == action;
    assert(required_action_ids()[k] == action);
}

} // verus!
