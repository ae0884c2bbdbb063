//! `/etc/kernel/cmdline`: the kernel command line that UKI builds and
//! systemd-boot read, as a list of whitespace-separated parameters.

use vstd::prelude::*;
use vstd::string::{StringExecFns, StringSliceAdditionalSpecFns};
use crate::text::{chars_of, chars_eq};
use crate::words::{words_of, line_of_words, is_word, split_words, words_to_line, lemma_words_of_line};
use crate::error::BootControlError;
use crate::etag::{etag_of, verify_etag, compute_etag_str};
use crate::sanitize::{validate_kernel_param, hits};

verus! {

/// The parameters of a command line.
pub open spec fn params_of(content: Seq<char>) -> Seq<Seq<char>> {
    words_of(content)
}

/// The list without any occurrence of `p`.
pub open spec fn without(ws: Seq<Seq<char>>, p: Seq<char>) -> Seq<Seq<char>>
    decreases ws.len(),
{
    if ws.len() == 0 {
        Seq::empty()
    } else if ws.last() == p {
        without(ws.drop_last(), p)
    } else {
        without(ws.drop_last(), p).push(ws.last())
    }
}

/// The text `add_param` produces: unchanged when `param` is present,
/// otherwise the parameters followed by `param`, one line.
pub open spec fn added(content: Seq<char>, param: Seq<char>) -> Seq<char> {
    if params_of(content).contains(param) {
        content
    } else {
        line_of_words(params_of(content).push(param))
    }
}

/// The text `remove_param` produces: the parameters without `param`.
pub open spec fn removed(content: Seq<char>, param: Seq<char>) -> Seq<char> {
    line_of_words(without(params_of(content), param))
}

/// Parse a command line into its parameters.
pub fn parse_cmdline(content: &str) -> (params: Vec<String>)
    ensures
        params@.map_values(|w: String| w@) == params_of(content@),
{
    split_words(content)
}

fn contains_word(ws: &Vec<String>, p: &str) -> (r: bool)
    ensures
        r == ws@.map_values(|w: String| w@).contains(p@),
{
    let pc = chars_of(p);
    let ghost v = ws@.map_values(|w: String| w@);
    let mut i: usize = 0;
    while i < ws.len()
        invariant
            i <= ws@.len(),
            pc@ == p@,
            v == ws@.map_values(|w: String| w@),
            forall|j: int| 0 <= j < i ==> v[j] != p@,
        decreases ws@.len() - i,
    {
        let w = chars_of(ws[i].as_str());
        if chars_eq(w.as_slice(), pc.as_slice()) {
            assert(v[i as int] == p@);
            return true;
        }
        i = i + 1;
    }
    false
}

fn is_single_word(p: &str) -> (r: bool)
    ensures
        r == is_word(p@),
{
    let c = chars_of(p);
    if c.len() == 0 {
        return false;
    }
    let mut i: usize = 0;
    while i < c.len()
        invariant
            i <= c@.len(),
            c@ == p@,
            forall|k: int| 0 <= k < i ==> !crate::text::is_ws(#[trigger] c@[k]),
        decreases c@.len() - i,
    {
        if crate::grub::is_ws_char(c[i]) {
            return false;
        }
        i = i + 1;
    }
    true
}

/// Add `param` to a command line. Adding a parameter that is already
/// present changes nothing.
///
/// Fails with [`BootControlError::MalformedValue`] when `param` is empty or
/// holds whitespace (it would not be one parameter).
pub fn add_param(content: &str, param: &str) -> (r: Result<String, BootControlError>)
    ensures
        r is Ok <==> is_word(param@),
        r matches Ok(text) ==> text@ == added(content@, param@),
        r matches Err(e) ==> e is MalformedValue,
{
    if !is_single_word(param) {
        return Err(
            BootControlError::MalformedValue {
                key: String::from_str(param),
                reason: String::from_str("a kernel parameter must be one non-empty word"),
            },
        );
    }
    let mut ws = parse_cmdline(content);
    if contains_word(&ws, param) {
        return Ok(String::from_str(content));
    }
    let ghost before = ws@;
    ws.push(String::from_str(param));
    assert(ws@.map_values(|w: String| w@) =~= before.map_values(|w: String| w@).push(param@));
    Ok(words_to_line(&ws))
}

/// Remove every occurrence of `param` from a command line.
///
/// Fails with [`BootControlError::KeyNotFound`] when `param` is not present.
pub fn remove_param(content: &str, param: &str) -> (r: Result<String, BootControlError>)
    ensures
        r is Ok <==> params_of(content@).contains(param@),
        r matches Ok(text) ==> text@ == removed(content@, param@),
        r matches Err(e) ==> (e matches BootControlError::KeyNotFound { key } && key@ == param@),
{
    let ws = parse_cmdline(content);
    if !contains_word(&ws, param) {
        return Err(BootControlError::KeyNotFound { key: String::from_str(param) });
    }
    let pc = chars_of(param);
    let ghost v = ws@.map_values(|w: String| w@);
    let mut out: Vec<String> = Vec::new();
    let mut i: usize = 0;
    while i < ws.len()
        invariant
            i <= ws@.len(),
            pc@ == param@,
            v == ws@.map_values(|w: String| w@),
            v == params_of(content@),
            out@.map_values(|w: String| w@) == without(v.take(i as int), param@),
        decreases ws@.len() - i,
    {
        let w = chars_of(ws[i].as_str());
        let ghost t = v.take(i + 1);
        assert(t.drop_last() =~= v.take(i as int));
        assert(t.last() == w@);
        if !chars_eq(w.as_slice(), pc.as_slice()) {
            let ghost prev = out@;
            out.push(ws[i].clone());
            assert(out@.map_values(|w: String| w@) =~= prev.map_values(|w: String| w@).push(w@));
        }
        i = i + 1;
    }
    assert(v.take(ws@.len() as int) =~= v);
    Ok(words_to_line(&out))
}

/// The verified core of `add_kernel_param`: refuse a blacklisted parameter,
/// check the caller's ETag, then add the parameter.
pub fn add_kernel_param_content(content: &str, param: &str, etag: &str) -> (r: Result<
    String,
    BootControlError,
>)
    ensures
        (exists|i: int| hits(param@, i)) ==> (r matches Err(e) && e is SecurityPolicyViolation),
        (forall|i: int| !hits(param@, i)) && etag@ != etag_of(content.spec_bytes()) ==> (r matches Err(
            BootControlError::StateMismatch { expected, actual },
        ) && expected@ == etag@ && actual@ == etag_of(content.spec_bytes())),
        (forall|i: int| !hits(param@, i)) && etag@ == etag_of(content.spec_bytes()) ==> (r is Ok
            <==> is_word(param@)),
        r matches Ok(text) ==> text@ == added(content@, param@),
{
    validate_kernel_param(param)?;
    if !verify_etag(etag, content.as_bytes()) {
        return Err(
            BootControlError::StateMismatch {
                expected: String::from_str(etag),
                actual: compute_etag_str(content),
            },
        );
    }
    add_param(content, param)
}

/// The verified core of `remove_kernel_param`: check the caller's ETag, then
/// remove the parameter.
pub fn remove_kernel_param_content(content: &str, param: &str, etag: &str) -> (r: Result<
    String,
    BootControlError,
>)
    ensures
        etag@ != etag_of(content.spec_bytes()) ==> (r matches Err(
            BootControlError::StateMismatch { expected, actual },
        ) && expected@ == etag@ && actual@ == etag_of(content.spec_bytes())),
        etag@ == etag_of(content.spec_bytes()) ==> (r is Ok <==> params_of(content@).contains(
            param@,
        )),
        r matches Ok(text) ==> text@ == removed(content@, param@),
{
    if !verify_etag(etag, content.as_bytes()) {
        return Err(
            BootControlError::StateMismatch {
                expected: String::from_str(etag),
                actual: compute_etag_str(content),
            },
        );
    }
    remove_param(content, param)
}

proof fn lemma_words_are_words(s: Seq<char>, i: int)
    requires
        0 <= i <= s.len(),
    ensures
        forall|k: int| 0 <= k < crate::words::words_from(s, i).len() ==> is_word(
            #[trigger] crate::words::words_from(s, i)[k],
        ),
    decreases s.len() + 1 - i,
{
    crate::words::lemma_first_non_ws_bounds(s, i);
    let a = crate::grub::first_non_ws(s, i);
    if i < s.len() && a < s.len() {
        crate::words::lemma_first_ws_bounds(s, a);
        let b = crate::words::first_ws(s, a);
        lemma_words_are_words(s, b);
        let ws = crate::words::words_from(s, i);
        assert forall|k: int| 0 <= k < ws.len() implies is_word(#[trigger] ws[k]) by {
            if k > 0 {
                assert(ws[k] == crate::words::words_from(s, b)[k - 1]);
            } else {
                assert(ws[0] == s.subrange(a, b));
            }
        }
    }
}

proof fn lemma_without_words(ws: Seq<Seq<char>>, p: Seq<char>)
    requires
        forall|k: int| 0 <= k < ws.len() ==> is_word(#[trigger] ws[k]),
    ensures
        forall|k: int| 0 <= k < without(ws, p).len() ==> is_word(#[trigger] without(ws, p)[k]),
        !without(ws, p).contains(p),
        forall|w: Seq<char>| w != p ==> (without(ws, p).contains(w) <==> ws.contains(w)),
    decreases ws.len(),
{
    if ws.len() > 0 {
        let d = ws.drop_last();
        assert forall|k: int| 0 <= k < d.len() implies is_word(#[trigger] d[k]) by {
            assert(d[k] == ws[k]);
        }
        lemma_without_words(d, p);
        let r = without(ws, p);
        assert forall|w: Seq<char>| w != p implies (r.contains(w) <==> ws.contains(w)) by {
            if ws.contains(w) {
                let j = choose|j: int| 0 <= j < ws.len() && ws[j] == w;
                if j < d.len() {
                    assert(d[j] == w);
                    assert(d.contains(w));
                    assert(without(d, p).contains(w) <==> d.contains(w));
                    let m = choose|m: int| 0 <= m < without(d, p).len() && without(d, p)[m] == w;
                    if ws.last() != p {
                        assert(r[m] == w);
                    }
                } else {
                    assert(r.last() == w);
                }
            }
            if r.contains(w) {
                let j = choose|j: int| 0 <= j < r.len() && r[j] == w;
                if ws.last() != p && j == r.len() - 1 {
                    assert(ws[ws.len() - 1] == w);
                } else {
                    assert(without(d, p)[j] == w);
                    assert(without(d, p).contains(w));
                    assert(without(d, p).contains(w) <==> d.contains(w));
                    assert(d.contains(w));
                    let m = choose|m: int| 0 <= m < d.len() && d[m] == w;
                    assert(ws[m] == w);
                }
            }
        }
        if r.contains(p) {
            let j = choose|j: int| 0 <= j < r.len() && r[j] == p;
            if ws.last() != p && j == r.len() - 1 {
            } else {
                assert(without(d, p)[j] == p);
                assert(without(d, p).contains(p));
            }
        }
        assert forall|k: int| 0 <= k < r.len() implies is_word(#[trigger] r[k]) by {
            if ws.last() != p && k == r.len() - 1 {
                assert(r[k] == ws[ws.len() - 1]);
            } else {
                assert(r[k] == without(d, p)[k]);
            }
        }
    }
}

/// After adding a well-formed parameter, reading the command line back lists
/// it, together with every parameter that was there before; adding it a
/// second time changes nothing.
pub proof fn lemma_add_then_read(content: Seq<char>, param: Seq<char>)
    requires
        is_word(param),
    ensures
        params_of(added(content, param)).contains(param),
        forall|w: Seq<char>|
            params_of(content).contains(w) ==> params_of(added(content, param)).contains(w),
        added(added(content, param), param) == added(content, param),
{
    let ws = params_of(content);
    lemma_words_are_words(content, 0);
    if !ws.contains(param) {
        let n = ws.push(param);
        assert forall|k: int| 0 <= k < n.len() implies is_word(#[trigger] n[k]) by {
            if k < ws.len() {
                assert(n[k] == ws[k]);
            }
        }
        lemma_words_of_line(n);
        assert(n[ws.len() as int] == param);
        assert forall|w: Seq<char>| ws.contains(w) implies n.contains(w) by {
            let j = choose|j: int| 0 <= j < ws.len() && ws[j] == w;
            assert(n[j] == w);
        }
    }
}

/// After removing a parameter, reading the command line back does not list
/// it, and every other parameter is still there.
pub proof fn lemma_remove_then_read(content: Seq<char>, param: Seq<char>)
    ensures
        !params_of(removed(content, param)).contains(param),
        forall|w: Seq<char>|
            w != param ==> (params_of(removed(content, param)).contains(w) <==> params_of(
                content,
            ).contains(w)),
{
    let ws = params_of(content);
    lemma_words_are_words(content, 0);
    lemma_without_words(ws, param);
    lemma_words_of_line(without(ws, param));
}

} // verus!
