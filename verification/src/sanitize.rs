//! The kernel command-line blacklist.
//!
//! A write whose key or value holds one of these substrings could disable a
//! security subsystem or drop the next boot into a root shell; it is refused
//! however the caller was authorized. Matching is deliberately by substring:
//! `nosingle` is refused because it holds `single`.

use vstd::prelude::*;
use vstd::string::StringExecFns;
use crate::text::{chars_of, contains_seq, contains_exec};
use crate::error::BootControlError;

verus! {

/// The blacklisted substrings, in the order they are checked.
pub open spec fn blacklist() -> Seq<Seq<char>> {
    seq![
        "init="@,
        "selinux=0"@,
        "apparmor=0"@,
        "systemd.unit="@,
        "rd.break"@,
        "single"@,
        "emergency"@,
    ]
}

/// The blacklisted substrings.
pub fn blacklisted_patterns() -> (v: Vec<&'static str>)
    ensures
        v@.map_values(|p: &str| p@) == blacklist(),
{
    let v = vec!["init=", "selinux=0", "apparmor=0", "systemd.unit=", "rd.break", "single", "emergency"];
    assert(v@.map_values(|p: &str| p@) =~= blacklist());
    v
}

/// `text` holds blacklisted pattern number `i`.
pub open spec fn hits(text: Seq<char>, i: int) -> bool {
    0 <= i < blacklist().len() && contains_seq(text, blacklist()[i])
}

/// The first pattern `key` or `value` holds, by blacklist order.
pub open spec fn first_hit(key: Seq<char>, value: Seq<char>, i: int) -> bool {
    &&& (hits(key, i) || hits(value, i))
    &&& forall|j: int| 0 <= j < i ==> !hits(key, j) && !hits(value, j)
}

/// The reason given for a refused payload.
pub open spec fn violation_reason(i: int) -> Seq<char> {
    "blacklisted kernel parameter: "@ + blacklist()[i]
}

/// Refuse a key-value payload that holds a blacklisted pattern.
///
/// Both the key and the value are checked; the error names the first
/// pattern (in blacklist order) found in either.
pub fn check_payload(key: &str, value: &str) -> (r: Result<(), BootControlError>)
    ensures
        r is Ok <==> (forall|i: int| !hits(key@, i) && !hits(value@, i)),
        r matches Err(e) ==> exists|i: int|
            first_hit(key@, value@, i) && (e matches BootControlError::SecurityPolicyViolation {
                reason,
            } && reason@ == violation_reason(i)),
{
    let pats = blacklisted_patterns();
    let k = chars_of(key);
    let v = chars_of(value);
    let mut i: usize = 0;
    while i < pats.len()
        invariant
            i <= pats@.len(),
            pats@.map_values(|p: &str| p@) == blacklist(),
            k@ == key@,
            v@ == value@,
            forall|j: int| 0 <= j < i ==> !hits(key@, j) && !hits(value@, j),
        decreases pats@.len() - i,
    {
        let p = chars_of(pats[i]);
        assert(p@ == blacklist()[i as int]);
        if contains_exec(k.as_slice(), p.as_slice()) || contains_exec(v.as_slice(), p.as_slice()) {
            let mut reason = String::from_str("blacklisted kernel parameter: ");
            reason.append(pats[i]);
            assert(first_hit(key@, value@, i as int));
            return Err(BootControlError::SecurityPolicyViolation { reason });
        }
        i = i + 1;
    }
    assert forall|i: int| !hits(key@, i) && !hits(value@, i) by {}
    Ok(())
}

/// Refuse a single kernel parameter that holds a blacklisted pattern.
pub fn validate_kernel_param(param: &str) -> (r: Result<(), BootControlError>)
    ensures
        r is Ok <==> (forall|i: int| !hits(param@, i)),
        r matches Err(e) ==> exists|i: int|
            first_hit(param@, param@, i) && (e matches BootControlError::SecurityPolicyViolation {
                reason,
            } && reason@ == violation_reason(i)),
{
    check_payload(param, param)
}

} // verus!
