//! `/etc/default/grub`: parsing, comment-preserving edits and the checked
//! write pipeline.
//!
//! # Grammar
//!
//! The file is read line by line. After trimming whitespace a line is
//!
//! * blank, or a comment starting with `#` — kept verbatim, no assignment;
//! * `KEY=VALUE` where `KEY` is letters, digits and `_` not starting with a
//!   digit, and `VALUE` is either `"…"` (no `"`, `$`, `` ` `` or `\` inside),
//!   `'…'` (no `'` inside) or a bare word free of whitespace, quotes, `$`,
//!   `` ` ``, `;`, `&`, `|`, `(`, `)`, `<` and `\`; the outer quotes are not
//!   part of the value;
//! * anything else is shell code this tool refuses to edit
//!   ([`BootControlError::ComplexBashDetected`]).
//!
//! When a key is assigned more than once, the last assignment wins, as it
//! does for the shell that sources the file.

use vstd::prelude::*;
use crate::text::{is_ws, chars_of, string_of, starts_with_seq, copy_range};
use crate::lines::{lines_of, render, views, is_clean_line, split_lines, join_lines};
use crate::etag::{etag_of, verify_etag, compute_etag_str};
use crate::error::BootControlError;
use vstd::string::{StringExecFns, StringSliceAdditionalSpecFns};

verus! {

// ── Spec: trimming ──────────────────────────────────────────────────────────

/// Index of the first non-whitespace character at or after `i` (or the length).
pub open spec fn first_non_ws(s: Seq<char>, i: int) -> int
    decreases s.len() - i,
{
    if i < 0 || i >= s.len() {
        s.len() as int
    } else if is_ws(s[i]) {
        first_non_ws(s, i + 1)
    } else {
        i
    }
}

/// One past the last non-whitespace character before `j` (or 0).
pub open spec fn end_non_ws(s: Seq<char>, j: int) -> int
    decreases j,
{
    if j <= 0 || j > s.len() {
        0
    } else if is_ws(s[j - 1]) {
        end_non_ws(s, j - 1)
    } else {
        j
    }
}

/// `s` without leading whitespace.
pub open spec fn trim_start(s: Seq<char>) -> Seq<char> {
    s.subrange(first_non_ws(s, 0), s.len() as int)
}

/// `s` without leading and trailing whitespace.
pub open spec fn trim(s: Seq<char>) -> Seq<char> {
    let a = first_non_ws(s, 0);
    let b = end_non_ws(s, s.len() as int);
    if a < b {
        s.subrange(a, b)
    } else {
        Seq::empty()
    }
}

/// Index of the first `c` at or after `i` (or the length).
pub open spec fn find_char(s: Seq<char>, c: char, i: int) -> int
    decreases s.len() - i,
{
    if i < 0 || i >= s.len() {
        s.len() as int
    } else if s[i] == c {
        i
    } else {
        find_char(s, c, i + 1)
    }
}

// ── Spec: line grammar ──────────────────────────────────────────────────────

pub open spec fn is_digit(c: char) -> bool {
    '0' <= c && c <= '9'
}

pub open spec fn is_key_char(c: char) -> bool {
    ('A' <= c && c <= 'Z') || ('a' <= c && c <= 'z') || is_digit(c) || c == '_'
}

/// A GRUB variable name.
pub open spec fn valid_key(k: Seq<char>) -> bool {
    &&& k.len() > 0
    &&& !is_digit(k[0])
    &&& forall|i: int| 0 <= i < k.len() ==> is_key_char(#[trigger] k[i])
}

/// Allowed between double quotes.
pub open spec fn dq_ok(c: char) -> bool {
    c != '"' && c != '$' && c != '`' && c != '\\'
}

/// Allowed in a bare (unquoted) value.
pub open spec fn bare_ok(c: char) -> bool {
    !is_ws(c) && dq_ok(c) && c != '\'' && c != ';' && c != '&' && c != '|' && c != '('
        && c != ')' && c != '<'
}

/// The value denoted by the text after `=`, if it is one this tool accepts.
pub open spec fn parse_value(raw: Seq<char>) -> Option<Seq<char>> {
    let n = raw.len() as int;
    if n >= 2 && raw[0] == '"' && raw[n - 1] == '"' && (forall|i: int|
        1 <= i < n - 1 ==> dq_ok(#[trigger] raw[i])) {
        Some(raw.subrange(1, n - 1))
    } else if n >= 2 && raw[0] == '\'' && raw[n - 1] == '\'' && (forall|i: int|
        1 <= i < n - 1 ==> #[trigger] raw[i] != '\'') {
        Some(raw.subrange(1, n - 1))
    } else if forall|i: int| 0 <= i < n ==> bare_ok(#[trigger] raw[i]) {
        Some(raw)
    } else {
        None
    }
}

/// What one line of the file is.
pub enum LineKind {
    Blank,
    Assign(Seq<char>, Seq<char>),
    Complex,
}

pub open spec fn line_kind(line: Seq<char>) -> LineKind {
    let t = trim(line);
    if t.len() == 0 || t[0] == '#' {
        LineKind::Blank
    } else {
        let q = find_char(t, '=', 0);
        let key = t.subrange(0, q);
        if q >= t.len() || !valid_key(key) {
            LineKind::Complex
        } else {
            match parse_value(t.subrange(q + 1, t.len() as int)) {
                Some(v) => LineKind::Assign(key, v),
                None => LineKind::Complex,
            }
        }
    }
}

pub open spec fn is_complex(line: Seq<char>) -> bool {
    line_kind(line) is Complex
}

/// Every line is blank, a comment or a simple assignment.
pub open spec fn all_simple(lines: Seq<Seq<char>>) -> bool {
    forall|i: int| 0 <= i < lines.len() ==> !is_complex(#[trigger] lines[i])
}

/// The value `line` assigns to `k`, if it is an assignment of `k`.
pub open spec fn assign_val(line: Seq<char>, k: Seq<char>) -> Option<Seq<char>> {
    match line_kind(line) {
        LineKind::Assign(k2, v) => if k2 == k {
            Some(v)
        } else {
            None
        },
        _ => None,
    }
}

/// The value of the last assignment of `k`, if any.
pub open spec fn last_assign(lines: Seq<Seq<char>>, k: Seq<char>) -> Option<Seq<char>>
    decreases lines.len(),
{
    if lines.len() == 0 {
        None
    } else {
        match assign_val(lines.last(), k) {
            Some(v) => Some(v),
            None => last_assign(lines.drop_last(), k),
        }
    }
}

/// Every assignment in file order.
pub open spec fn assignments_of(lines: Seq<Seq<char>>) -> Seq<(Seq<char>, Seq<char>)>
    decreases lines.len(),
{
    if lines.len() == 0 {
        Seq::empty()
    } else {
        match line_kind(lines.last()) {
            LineKind::Assign(k, v) => assignments_of(lines.drop_last()).push((k, v)),
            _ => assignments_of(lines.drop_last()),
        }
    }
}

/// Views of a list of string pairs.
pub open spec fn pair_views(v: Seq<(String, String)>) -> Seq<(Seq<char>, Seq<char>)> {
    v.map_values(|p: (String, String)| (p.0@, p.1@))
}

/// The key-value view of the file: every assigned key, with its last value.
pub open spec fn config_map(lines: Seq<Seq<char>>) -> Map<Seq<char>, Seq<char>> {
    Map::new(|k: Seq<char>| last_assign(lines, k) is Some, |k: Seq<char>| last_assign(lines, k)->0)
}

// ── Spec: editing ───────────────────────────────────────────────────────────

/// `line`, after leading whitespace, starts with `key=`.
pub open spec fn is_assignment_for(line: Seq<char>, key: Seq<char>) -> bool {
    starts_with_seq(trim_start(line), key + seq!['='])
}

/// Index of the last line that assigns `key` textually, or -1.
pub open spec fn last_match(lines: Seq<Seq<char>>, key: Seq<char>) -> int
    decreases lines.len(),
{
    if lines.len() == 0 {
        -1
    } else if is_assignment_for(lines.last(), key) {
        lines.len() - 1
    } else {
        last_match(lines.drop_last(), key)
    }
}

/// The value needs double quotes to stay one word.
pub open spec fn needs_quotes(v: Seq<char>) -> bool {
    v.len() == 0 || v.contains(' ') || v.contains('\t')
}

/// The canonical assignment line for `key` and `value`.
pub open spec fn assignment_line(key: Seq<char>, value: Seq<char>) -> Seq<char> {
    if needs_quotes(value) {
        key + seq!['=', '"'] + value + seq!['"']
    } else {
        key + seq!['='] + value
    }
}

/// The lines after setting `key` to `value`: the last assignment of `key` is
/// replaced, or the assignment is appended when there is none.
pub open spec fn set_lines(lines: Seq<Seq<char>>, key: Seq<char>, value: Seq<char>) -> Seq<
    Seq<char>,
> {
    let i = last_match(lines, key);
    if i >= 0 {
        lines.update(i, assignment_line(key, value))
    } else {
        lines.push(assignment_line(key, value))
    }
}

/// A value that reads back unchanged from its assignment line.
pub open spec fn safe_char(c: char) -> bool {
    dq_ok(c) && c != '\'' && c != ';' && c != '&' && c != '|' && c != '(' && c != ')' && c
        != '<' && c != '\n' && c != '\r' && c != '\x0B' && c != '\x0C'
}

pub open spec fn safe_value(v: Seq<char>) -> bool {
    forall|i: int| 0 <= i < v.len() ==> safe_char(#[trigger] v[i]) && (needs_quotes(v) || !is_ws(v[i]))
}

// ── Proofs ──────────────────────────────────────────────────────────────────

pub proof fn lemma_first_non_ws(s: Seq<char>, i: int)
    requires
        0 <= i <= s.len(),
    ensures
        i <= first_non_ws(s, i) <= s.len(),
        forall|k: int| i <= k < first_non_ws(s, i) ==> is_ws(s[k]),
        first_non_ws(s, i) < s.len() ==> !is_ws(s[first_non_ws(s, i)]),
    decreases s.len() - i,
{
    if i < s.len() && is_ws(s[i]) {
        lemma_first_non_ws(s, i + 1);
    }
}

pub proof fn lemma_end_non_ws(s: Seq<char>, j: int)
    requires
        0 <= j <= s.len(),
    ensures
        0 <= end_non_ws(s, j) <= j,
        forall|k: int| end_non_ws(s, j) <= k < j ==> is_ws(s[k]),
        end_non_ws(s, j) > 0 ==> !is_ws(s[end_non_ws(s, j) - 1]),
    decreases j,
{
    if j > 0 && is_ws(s[j - 1]) {
        lemma_end_non_ws(s, j - 1);
    }
}

proof fn lemma_find_char(s: Seq<char>, c: char, i: int)
    requires
        0 <= i <= s.len(),
    ensures
        i <= find_char(s, c, i) <= s.len(),
        forall|k: int| i <= k < find_char(s, c, i) ==> s[k] != c,
        find_char(s, c, i) < s.len() ==> s[find_char(s, c, i)] == c,
    decreases s.len() - i,
{
    if i < s.len() && s[i] != c {
        lemma_find_char(s, c, i + 1);
    }
}

proof fn lemma_find_char_at(s: Seq<char>, c: char, i: int, j: int)
    requires
        0 <= i <= j < s.len(),
        s[j] == c,
        forall|k: int| i <= k < j ==> s[k] != c,
    ensures
        find_char(s, c, i) == j,
    decreases j - i,
{
    if i < j {
        lemma_find_char_at(s, c, i + 1, j);
    }
}

/// For a line without surrounding whitespace, trimming changes nothing.
proof fn lemma_trim_tight(s: Seq<char>)
    requires
        s.len() > 0,
        !is_ws(s[0]),
        !is_ws(s[s.len() - 1]),
    ensures
        trim(s) == s,
        trim_start(s) == s,
{
    assert(first_non_ws(s, 0) == 0);
    assert(end_non_ws(s, s.len() as int) == s.len());
    assert(s.subrange(0, s.len() as int) =~= s);
}

/// A well-formed assignment line reads back as that assignment.
pub proof fn lemma_assignment_line_kind(key: Seq<char>, value: Seq<char>)
    requires
        valid_key(key),
        safe_value(value),
    ensures
        line_kind(assignment_line(key, value)) == LineKind::Assign(key, value),
        is_clean_line(assignment_line(key, value)),
        is_assignment_for(assignment_line(key, value), key),
{
    let l = assignment_line(key, value);
    let n = key.len() as int;
    assert(is_key_char(key[0]));
    assert(l[0] == key[0]);
    assert(!is_ws(l[0]));
    if needs_quotes(value) {
        assert(l[l.len() - 1] == '"');
    } else {
        assert(l[l.len() - 1] == value[value.len() - 1]);
        assert(safe_char(value[value.len() - 1]));
    }
    lemma_trim_tight(l);
    assert forall|k: int| 0 <= k < n implies l[k] != '=' by {
        assert(l[k] == key[k]);
        assert(is_key_char(key[k]));
    }
    assert(l[n] == '=');
    lemma_find_char_at(l, '=', 0, n);
    assert(l.subrange(0, n) =~= key);
    let raw = l.subrange(n + 1, l.len() as int);
    if needs_quotes(value) {
        assert(raw =~= seq!['"'] + value + seq!['"']);
        assert(raw.subrange(1, raw.len() - 1) =~= value);
        assert forall|i: int| 1 <= i < raw.len() - 1 implies dq_ok(#[trigger] raw[i]) by {
            assert(raw[i] == value[i - 1]);
            assert(safe_char(value[i - 1]));
        }
    } else {
        assert(raw =~= value);
        assert(value.len() > 0);
        assert(safe_char(value[0]));
        assert forall|i: int| 0 <= i < raw.len() implies bare_ok(#[trigger] raw[i]) by {
            assert(safe_char(value[i]));
            if value[i] == ' ' || value[i] == '\t' {
                assert(value.contains(value[i]));
            }
        }
    }
    assert forall|k: int| 0 <= k < l.len() implies l[k] != '\n' by {
        if k < n {
            assert(l[k] == key[k]);
            assert(is_key_char(key[k]));
        } else if k > n {
            if needs_quotes(value) {
                if 0 <= k - n - 2 < value.len() {
                    assert(l[k] == value[k - n - 2]);
                    assert(safe_char(value[k - n - 2]));
                }
            } else {
                assert(l[k] == value[k - n - 1]);
                assert(safe_char(value[k - n - 1]));
            }
        }
    }
    assert(trim_start(l).subrange(0, n + 1) =~= key + seq!['=']);
}

/// For a simple line and a well-formed key, the textual test
/// `is_assignment_for` agrees with the parse.
pub proof fn lemma_assignment_for_agrees(line: Seq<char>, key: Seq<char>)
    requires
        valid_key(key),
        !is_complex(line),
    ensures
        is_assignment_for(line, key) <==> assign_val(line, key) is Some,
{
    let a = first_non_ws(line, 0);
    let b = end_non_ws(line, line.len() as int);
    lemma_first_non_ws(line, 0);
    lemma_end_non_ws(line, line.len() as int);
    let t = trim(line);
    let ts = trim_start(line);
    let n = key.len() as int;
    assert forall|k: int| 0 <= k < n implies key[k] != '=' && key[k] != '#' by {
        assert(is_key_char(key[k]));
    }
    if a < b {
        assert(t == line.subrange(a, b));
        assert forall|k: int| 0 <= k < t.len() implies t[k] == ts[k] by {}
    }
    if is_assignment_for(line, key) {
        assert(ts.len() >= n + 1);
        assert(ts.subrange(0, n + 1)[n] == ts[n]);
        assert((key + seq!['='])[n] == '=');
        assert(ts[n] == '=');
        assert(line[a + n] == '=');
        assert(!is_ws(line[a + n]));
        assert(b > a + n);
        assert(t.len() >= n + 1);
        assert forall|k: int| 0 <= k <= n implies t[k] == (key + seq!['='])[k] by {
            assert(ts.subrange(0, n + 1)[k] == ts[k]);
        }
        assert(t[0] == key[0]);
        assert forall|k: int| 0 <= k < n implies t[k] != '=' by {
            assert(t[k] == (key + seq!['='])[k]);
        }
        assert(t[n] == '=');
        lemma_find_char_at(t, '=', 0, n);
        assert(t.subrange(0, n) =~= key);
    }
    if assign_val(line, key) is Some {
        assert(a < b);
        let q = find_char(t, '=', 0);
        lemma_find_char(t, '=', 0);
        assert(t.subrange(0, q) == key);
        assert(q == n);
        assert(t[n] == '=');
        assert forall|k: int| 0 <= k <= n implies ts[k] == (key + seq!['='])[k] by {
            if k < n {
                assert(t.subrange(0, q)[k] == t[k]);
            }
        }
        assert(ts.subrange(0, n + 1) =~= key + seq!['=']);
    }
}

proof fn lemma_last_match(lines: Seq<Seq<char>>, key: Seq<char>)
    ensures
        -1 <= last_match(lines, key) < lines.len(),
        last_match(lines, key) >= 0 ==> is_assignment_for(lines[last_match(lines, key)], key),
        forall|j: int|
            last_match(lines, key) < j < lines.len() ==> !is_assignment_for(
                #[trigger] lines[j],
                key,
            ),
    decreases lines.len(),
{
    if lines.len() > 0 && !is_assignment_for(lines.last(), key) {
        let p = lines.drop_last();
        lemma_last_match(p, key);
        assert forall|j: int| last_match(lines, key) < j < lines.len() implies !is_assignment_for(
            #[trigger] lines[j],
            key,
        ) by {
            if j < p.len() {
                assert(lines[j] == p[j]);
            }
        }
    }
}

proof fn lemma_last_assign_at(lines: Seq<Seq<char>>, i: int, k: Seq<char>)
    requires
        0 <= i < lines.len(),
        forall|j: int| i < j < lines.len() ==> assign_val(#[trigger] lines[j], k) is None,
    ensures
        last_assign(lines, k) == (match assign_val(lines[i], k) {
            Some(v) => Some(v),
            None => last_assign(lines.take(i), k),
        }),
    decreases lines.len(),
{
    if i == lines.len() - 1 {
        assert(lines.drop_last() =~= lines.take(i));
    } else {
        let p = lines.drop_last();
        assert(assign_val(lines.last(), k) is None);
        assert forall|j: int| i < j < p.len() implies assign_val(#[trigger] p[j], k) is None by {
            assert(p[j] == lines[j]);
        }
        lemma_last_assign_at(p, i, k);
        assert(p.take(i) =~= lines.take(i));
    }
}

proof fn lemma_last_assign_pointwise(a: Seq<Seq<char>>, b: Seq<Seq<char>>, k: Seq<char>)
    requires
        a.len() == b.len(),
        forall|j: int| 0 <= j < a.len() ==> assign_val(#[trigger] a[j], k) == assign_val(b[j], k),
    ensures
        last_assign(a, k) == last_assign(b, k),
    decreases a.len(),
{
    if a.len() > 0 {
        let pa = a.drop_last();
        let pb = b.drop_last();
        assert(assign_val(a[a.len() - 1], k) == assign_val(b[b.len() - 1], k));
        assert forall|j: int| 0 <= j < pa.len() implies assign_val(#[trigger] pa[j], k)
            == assign_val(pb[j], k) by {
            assert(pa[j] == a[j]);
            assert(pb[j] == b[j]);
        }
        lemma_last_assign_pointwise(pa, pb, k);
    }
}

/// Setting a well-formed key to a value that survives quoting: the file
/// stays free of shell code, the key reads back as the value, every other
/// key keeps its value, and writing the lines out and splitting the text
/// again gives the same lines.
pub proof fn lemma_set_then_read(lines: Seq<Seq<char>>, key: Seq<char>, value: Seq<char>)
    requires
        all_simple(lines),
        forall|j: int| 0 <= j < lines.len() ==> is_clean_line(#[trigger] lines[j]),
        valid_key(key),
        safe_value(value),
    ensures
        all_simple(set_lines(lines, key, value)),
        config_map(set_lines(lines, key, value)) == config_map(lines).insert(key, value),
        lines_of(render(set_lines(lines, key, value))) == set_lines(lines, key, value),
{
    let x = assignment_line(key, value);
    lemma_assignment_line_kind(key, value);
    lemma_last_match(lines, key);
    let i = last_match(lines, key);
    let out = set_lines(lines, key, value);
    assert(assign_val(x, key) == Some(value));
    assert forall|j: int| 0 <= j < lines.len() implies (is_assignment_for(
        #[trigger] lines[j],
        key,
    ) <==> assign_val(lines[j], key) is Some) by {
        lemma_assignment_for_agrees(lines[j], key);
    }
    if i >= 0 {
        assert(out == lines.update(i, x));
        assert forall|j: int| i < j < out.len() implies assign_val(#[trigger] out[j], key) is None by {
            assert(out[j] == lines[j]);
        }
        lemma_last_assign_at(out, i, key);
        assert forall|k2: Seq<char>| k2 != key implies last_assign(out, k2) == last_assign(
            lines,
            k2,
        ) by {
            assert forall|j: int| 0 <= j < out.len() implies assign_val(#[trigger] out[j], k2)
                == assign_val(lines[j], k2) by {
                if j == i {
                    assert(assign_val(lines[i], key) is Some);
                }
            }
            lemma_last_assign_pointwise(out, lines, k2);
        }
    } else {
        assert(out == lines.push(x));
        assert(out.drop_last() =~= lines);
        assert forall|k2: Seq<char>| k2 != key implies last_assign(out, k2) == last_assign(
            lines,
            k2,
        ) by {}
    }
    assert forall|j: int| 0 <= j < out.len() implies !is_complex(#[trigger] out[j]) by {
        if j < lines.len() && j != i {
            assert(out[j] == lines[j]);
        }
    }
    assert(config_map(out) =~= config_map(lines).insert(key, value));
    assert forall|j: int| 0 <= j < out.len() implies is_clean_line(#[trigger] out[j]) by {
        if j < lines.len() && j != i {
            assert(out[j] == lines[j]);
        }
    }
    crate::lines::lemma_lines_of_render(out);
}

/// What a GRUB write gives back when read: for a file without shell code,
/// a well-formed key and a value that survives quoting, the text that
/// [`rewrite_grub_content`] writes parses again without shell code, reads
/// `key` as `value`, and keeps every other key's value.
pub proof fn lemma_rewrite_then_read(content: Seq<char>, key: Seq<char>, value: Seq<char>)
    requires
        all_simple(lines_of(content)),
        valid_key(key),
        safe_value(value),
    ensures
        all_simple(lines_of(render(set_lines(lines_of(content), key, value)))),
        config_map(lines_of(render(set_lines(lines_of(content), key, value)))) == config_map(
            lines_of(content),
        ).insert(key, value),
{
    crate::lines::lemma_lines_clean(content);
    lemma_set_then_read(lines_of(content), key, value);
}

// ── Exec: character scanning ────────────────────────────────────────────────

pub fn is_ws_char(c: char) -> (r: bool)
    ensures
        r == is_ws(c),
{
    ('\t' <= c && c <= '\r') || c == ' ' || c == '\u{85}' || c == '\u{a0}' || c == '\u{1680}'
        || ('\u{2000}' <= c && c <= '\u{200a}') || c == '\u{2028}' || c == '\u{2029}'
        || c == '\u{202f}' || c == '\u{205f}' || c == '\u{3000}'
}

pub fn first_non_ws_at(s: &[char], i: usize) -> (r: usize)
    requires
        i <= s@.len(),
    ensures
        r == first_non_ws(s@, i as int),
        i <= r <= s@.len(),
{
    let mut j = i;
    while j < s.len() && is_ws_char(s[j])
        invariant
            i <= j <= s@.len(),
            first_non_ws(s@, i as int) == first_non_ws(s@, j as int),
        decreases s@.len() - j,
    {
        j = j + 1;
    }
    j
}

fn end_non_ws_at(s: &[char]) -> (r: usize)
    ensures
        r == end_non_ws(s@, s@.len() as int),
        r <= s@.len(),
{
    let mut j = s.len();
    while j > 0 && is_ws_char(s[j - 1])
        invariant
            j <= s@.len(),
            end_non_ws(s@, s@.len() as int) == end_non_ws(s@, j as int),
        decreases j,
    {
        j = j - 1;
    }
    j
}

fn find_char_at(s: &[char], c: char, i: usize) -> (r: usize)
    requires
        i <= s@.len(),
    ensures
        r == find_char(s@, c, i as int),
        i <= r <= s@.len(),
        r < s@.len() ==> s@[r as int] == c,
        forall|k: int| i <= k < r ==> s@[k] != c,
{
    let mut j = i;
    while j < s.len() && s[j] != c
        invariant
            i <= j <= s@.len(),
            find_char(s@, c, i as int) == find_char(s@, c, j as int),
            forall|k: int| i <= k < j ==> s@[k] != c,
        decreases s@.len() - j,
    {
        j = j + 1;
    }
    j
}

/// The trimmed characters of a line.
pub fn trim_chars(s: &[char]) -> (r: Vec<char>)
    ensures
        r@ == trim(s@),
{
    let a = first_non_ws_at(s, 0);
    let b = end_non_ws_at(s);
    if a < b {
        copy_range(s, a, b)
    } else {
        Vec::new()
    }
}

fn is_digit_char(c: char) -> (r: bool)
    ensures
        r == is_digit(c),
{
    '0' <= c && c <= '9'
}

fn is_key_char_exec(c: char) -> (r: bool)
    ensures
        r == is_key_char(c),
{
    ('A' <= c && c <= 'Z') || ('a' <= c && c <= 'z') || is_digit_char(c) || c == '_'
}

/// Whether `k` is a GRUB variable name.
pub fn is_valid_key(k: &[char]) -> (r: bool)
    ensures
        r == valid_key(k@),
{
    if k.len() == 0 || is_digit_char(k[0]) {
        return false;
    }
    let mut i: usize = 0;
    while i < k.len()
        invariant
            i <= k@.len(),
            forall|j: int| 0 <= j < i ==> is_key_char(#[trigger] k@[j]),
        decreases k@.len() - i,
    {
        if !is_key_char_exec(k[i]) {
            return false;
        }
        i = i + 1;
    }
    true
}

fn dq_ok_exec(c: char) -> (r: bool)
    ensures
        r == dq_ok(c),
{
    c != '"' && c != '$' && c != '`' && c != '\\'
}

fn bare_ok_exec(c: char) -> (r: bool)
    ensures
        r == bare_ok(c),
{
    !is_ws_char(c) && dq_ok_exec(c) && c != '\'' && c != ';' && c != '&' && c != '|' && c
        != '(' && c != ')' && c != '<'
}

fn parse_value_exec(raw: &[char]) -> (r: Option<Vec<char>>)
    ensures
        match r {
            Some(v) => parse_value(raw@) == Some(v@),
            None => parse_value(raw@) is None,
        },
{
    let n = raw.len();
    if n >= 2 && raw[0] == '"' && raw[n - 1] == '"' {
        let mut ok = true;
        let mut i: usize = 1;
        while i < n - 1
            invariant
                1 <= i <= n - 1,
                n == raw@.len(),
                n >= 2,
                ok == (forall|j: int| 1 <= j < i ==> dq_ok(#[trigger] raw@[j])),
            decreases n - i,
        {
            ok = ok && dq_ok_exec(raw[i]);
            i = i + 1;
        }
        if ok {
            return Some(copy_range(raw, 1, n - 1));
        }
    }
    if n >= 2 && raw[0] == '\'' && raw[n - 1] == '\'' {
        let mut ok = true;
        let mut i: usize = 1;
        while i < n - 1
            invariant
                1 <= i <= n - 1,
                n == raw@.len(),
                n >= 2,
                ok == (forall|j: int| 1 <= j < i ==> #[trigger] raw@[j] != '\''),
            decreases n - i,
        {
            ok = ok && raw[i] != '\'';
            i = i + 1;
        }
        if ok {
            assert(!(raw@[0] == '"' && raw@[n - 1] == '"'));
            return Some(copy_range(raw, 1, n - 1));
        }
    }
    let mut ok = true;
    let mut i: usize = 0;
    while i < n
        invariant
            i <= n,
            n == raw@.len(),
            ok == (forall|j: int| 0 <= j < i ==> bare_ok(#[trigger] raw@[j])),
        decreases n - i,
    {
        ok = ok && bare_ok_exec(raw[i]);
        i = i + 1;
    }
    if ok {
        proof {
            if n >= 2 && raw@[0] == '"' {
                assert(!bare_ok(raw@[0]));
            }
            if n >= 2 && raw@[0] == '\'' {
                assert(!bare_ok(raw@[0]));
            }
        }
        Some(copy_range(raw, 0, n))
    } else {
        None
    }
}

/// One classified line.
pub enum ParsedLine {
    Blank,
    Assign { key: Vec<char>, value: Vec<char> },
    Complex,
}

/// The line kind an executable classification stands for.
pub open spec fn parsed_kind(p: ParsedLine) -> LineKind {
    match p {
        ParsedLine::Blank => LineKind::Blank,
        ParsedLine::Assign { key, value } => LineKind::Assign(key@, value@),
        ParsedLine::Complex => LineKind::Complex,
    }
}

/// Classify one line of the file.
pub fn classify_line(line: &[char]) -> (p: ParsedLine)
    ensures
        parsed_kind(p) == line_kind(line@),
{
    let t = trim_chars(line);
    if t.len() == 0 || t[0] == '#' {
        return ParsedLine::Blank;
    }
    let q = find_char_at(t.as_slice(), '=', 0);
    if q >= t.len() {
        return ParsedLine::Complex;
    }
    let key = copy_range(t.as_slice(), 0, q);
    if !is_valid_key(key.as_slice()) {
        return ParsedLine::Complex;
    }
    let raw = copy_range(t.as_slice(), q + 1, t.len());
    match parse_value_exec(raw.as_slice()) {
        Some(v) => ParsedLine::Assign { key, value: v },
        None => ParsedLine::Complex,
    }
}

// ── Exec: the configuration ─────────────────────────────────────────────────

/// A parsed `/etc/default/grub`: its lines, verbatim, every one of them
/// blank, a comment or a simple assignment.
pub struct GrubConfig {
    pub lines: Vec<String>,
}

impl GrubConfig {
    /// The lines as character sequences.
    pub open spec fn line_views(&self) -> Seq<Seq<char>> {
        views(self.lines@)
    }

    /// The key-value view: each assigned key with its last value.
    pub open spec fn map(&self) -> Map<Seq<char>, Seq<char>> {
        config_map(self.line_views())
    }

    pub open spec fn wf(&self) -> bool {
        &&& all_simple(self.line_views())
        &&& forall|j: int|
            0 <= j < self.line_views().len() ==> is_clean_line(#[trigger] self.line_views()[j])
    }

    /// The value of `key` (its last assignment), if assigned.
    pub fn get(&self, key: &str) -> (r: Option<String>)
        ensures
            match r {
                Some(v) => last_assign(self.line_views(), key@) == Some(v@),
                None => last_assign(self.line_views(), key@) is None,
            },
    {
        let k = chars_of(key);
        let mut i = self.lines.len();
        assert(self.line_views().take(i as int) =~= self.line_views());
        while i > 0
            invariant
                i <= self.lines@.len(),
                k@ == key@,
                last_assign(self.line_views(), key@) == last_assign(
                    self.line_views().take(i as int),
                    key@,
                ),
            decreases i,
        {
            let line = chars_of(self.lines[i - 1].as_str());
            let ghost t = self.line_views().take(i as int);
            assert(t.last() == line@);
            assert(t.drop_last() =~= self.line_views().take(i - 1));
            match classify_line(line.as_slice()) {
                ParsedLine::Assign { key: k2, value } => {
                    if crate::text::chars_eq(k2.as_slice(), k.as_slice()) {
                        return Some(string_of(value));
                    }
                },
                _ => {},
            }
            i = i - 1;
        }
        None
    }

    /// Every assignment in file order as `(key, value)`; inserting them into
    /// a map one after the other yields the last-assignment-wins view.
    pub fn assignments(&self) -> (r: Vec<(String, String)>)
        ensures
            pair_views(r@) == assignments_of(self.line_views()),
    {
        let mut out: Vec<(String, String)> = Vec::new();
        let mut i: usize = 0;
        while i < self.lines.len()
            invariant
                i <= self.lines@.len(),
                pair_views(out@) == assignments_of(self.line_views().take(i as int)),
            decreases self.lines@.len() - i,
        {
            let line = chars_of(self.lines[i].as_str());
            let ghost t = self.line_views().take(i + 1);
            assert(t.last() == line@);
            assert(t.drop_last() =~= self.line_views().take(i as int));
            match classify_line(line.as_slice()) {
                ParsedLine::Assign { key, value } => {
                    let ghost prev = out@;
                    out.push((string_of(key), string_of(value)));
                    assert(pair_views(out@) =~= pair_views(prev).push((key@, value@)));
                },
                _ => {},
            }
            i = i + 1;
        }
        assert(self.line_views().take(self.lines@.len() as int) =~= self.line_views());
        out
    }

    /// Set `key` to `value`: replace the last line assigning `key`, or append
    /// an assignment when there is none. Every other line stays as it was.
    pub fn set_value(&mut self, key: &str, value: &str)
        ensures
            final(self).line_views() == set_lines(old(self).line_views(), key@, value@),
    {
        let new_line = build_assignment_line(key, value);
        let mut i = self.lines.len();
        let mut found: Option<usize> = None;
        assert(self.line_views().take(i as int) =~= self.line_views());
        while i > 0 && found.is_none()
            invariant
                i <= self.lines@.len(),
                self.lines@ == old(self).lines@,
                match found {
                    Some(f) => f < self.lines@.len() && f as int == last_match(
                        self.line_views(),
                        key@,
                    ),
                    None => last_match(self.line_views(), key@) == last_match(
                        self.line_views().take(i as int),
                        key@,
                    ),
                },
            decreases i + (if found is None {
                1int
            } else {
                0int
            }),
        {
            let ghost t = self.line_views().take(i as int);
            assert(t.last() == self.lines@[i - 1]@);
            assert(t.drop_last() =~= self.line_views().take(i - 1));
            if is_assignment_for_key(self.lines[i - 1].as_str(), key) {
                found = Some(i - 1);
            } else {
                i = i - 1;
            }
        }
        match found {
            Some(f) => {
                self.lines.set(f, new_line);
                assert(self.line_views() =~= set_lines(old(self).line_views(), key@, value@));
            },
            None => {
                assert(self.line_views().take(0) =~= Seq::<Seq<char>>::empty());
                self.lines.push(new_line);
                assert(self.line_views() =~= set_lines(old(self).line_views(), key@, value@));
            },
        }
    }

    /// The file text: every line followed by `'\n'`.
    pub fn render(&self) -> (text: String)
        ensures
            text@ == render(self.line_views()),
    {
        join_lines(&self.lines)
    }
}

/// Whether `line`, after leading whitespace, starts with `key=`.
pub fn is_assignment_for_key(line: &str, key: &str) -> (r: bool)
    ensures
        r == is_assignment_for(line@, key@),
{
    let l = chars_of(line);
    let k = chars_of(key);
    let a = first_non_ws_at(l.as_slice(), 0);
    let ghost ts = trim_start(l@);
    let ghost pat = key@ + seq!['='];
    assert(ts == l@.subrange(a as int, l@.len() as int));
    if l.len() - a <= k.len() {
        return false;
    }
    let mut j: usize = 0;
    let n = l.len();
    while j < k.len()
        invariant
            j <= k@.len(),
            k@ == key@,
            l@ == line@,
            n == l@.len(),
            ts == trim_start(line@),
            a + k@.len() + 1 <= l@.len(),
            ts == l@.subrange(a as int, l@.len() as int),
            pat == key@ + seq!['='],
            forall|m: int| 0 <= m < j ==> ts[m] == pat[m],
        decreases k@.len() - j,
    {
        assert(a + j < l@.len());
        let idx = a + j;
        assert(ts[j as int] == l@[a + j]);
        assert(pat[j as int] == k@[j as int]);
        if l[idx] != k[j] {
            assert(ts.subrange(0, pat.len() as int)[j as int] == ts[j as int]);
            return false;
        }
        j = j + 1;
    }
    assert(ts[k@.len() as int] == l@[a + k@.len()]);
    assert(pat[k@.len() as int] == '=');
    if l[a + k.len()] != '=' {
        assert(ts.subrange(0, pat.len() as int)[k@.len() as int] == ts[k@.len() as int]);
        return false;
    }
    assert(ts.subrange(0, pat.len() as int) =~= pat);
    true
}

/// The canonical `KEY=VALUE` line; the value is double-quoted when it is
/// empty or holds a space or tab.
pub fn build_assignment_line(key: &str, value: &str) -> (line: String)
    ensures
        line@ == assignment_line(key@, value@),
{
    let v = chars_of(value);
    let mut quote = v.len() == 0;
    let mut i: usize = 0;
    while i < v.len()
        invariant
            i <= v@.len(),
            v@ == value@,
            quote == (v@.len() == 0 || exists|j: int|
                0 <= j < i && (v@[j] == ' ' || v@[j] == '\t')),
        decreases v@.len() - i,
    {
        if v[i] == ' ' || v[i] == '\t' {
            quote = true;
        }
        i = i + 1;
    }
    proof {
        if quote && v@.len() > 0 {
            let j = choose|j: int| 0 <= j < v@.len() && (v@[j] == ' ' || v@[j] == '\t');
            if v@[j] == ' ' {
                assert(v@.contains(' '));
            } else {
                assert(v@.contains('\t'));
            }
        }
        if v@.contains(' ') {
            let j = choose|j: int| 0 <= j < v@.len() && v@[j] == ' ';
            assert(quote);
        }
        if v@.contains('\t') {
            let j = choose|j: int| 0 <= j < v@.len() && v@[j] == '\t';
            assert(quote);
        }
    }
    let mut out = String::from_str(key);
    if quote {
        out.append("=\"");
        out.append(value);
        out.append("\"");
        proof {
            reveal_strlit("=\"");
            reveal_strlit("\"");
            assert(out@ =~= assignment_line(key@, value@));
        }
    } else {
        out.append("=");
        out.append(value);
        proof {
            reveal_strlit("=");
            assert(out@ =~= assignment_line(key@, value@));
        }
    }
    out
}

/// Parse the text of `/etc/default/grub`.
///
/// Fails with [`BootControlError::ComplexBashDetected`] naming the first
/// line (trimmed) that is neither blank, a comment nor a simple assignment.
pub fn parse_grub_config(content: &str) -> (r: Result<GrubConfig, BootControlError>)
    ensures
        r is Ok <==> all_simple(lines_of(content@)),
        r matches Ok(c) ==> c.line_views() == lines_of(content@) && c.wf(),
        r matches Err(e) ==> exists|i: int|
            #![trigger lines_of(content@)[i]]
            0 <= i < lines_of(content@).len() && is_complex(lines_of(content@)[i]) && (forall|
                j: int,
            |
                0 <= j < i ==> !is_complex(#[trigger] lines_of(content@)[j])) && (e matches BootControlError::ComplexBashDetected {
                offender,
            } && offender@ == trim(lines_of(content@)[i])),
{
    let lines = split_lines(content);
    let ghost ls = lines_of(content@);
    let mut i: usize = 0;
    while i < lines.len()
        invariant
            i <= lines@.len(),
            ls == lines_of(content@),
            views(lines@) == ls,
            forall|j: int| 0 <= j < i ==> !is_complex(#[trigger] ls[j]),
        decreases lines@.len() - i,
    {
        let line = chars_of(lines[i].as_str());
        assert(ls[i as int] == line@);
        match classify_line(line.as_slice()) {
            ParsedLine::Complex => {
                let t = trim_chars(line.as_slice());
                assert(is_complex(lines_of(content@)[i as int]));
                assert(!all_simple(lines_of(content@)));
                return Err(BootControlError::ComplexBashDetected { offender: string_of(t) });
            },
            _ => {},
        }
        i = i + 1;
    }
    proof {
        crate::lines::lemma_lines_clean(content@);
    }
    Ok(GrubConfig { lines })
}

/// The verified core of a GRUB write: check the caller's ETag against the
/// current text, parse it, set `key` to `value`, and return the new text.
///
/// Refuses with [`BootControlError::StateMismatch`] (carrying the provided
/// and the actual ETag) when `etag` is not the ETag of `content`, and with
/// [`BootControlError::ComplexBashDetected`] when the text holds shell code.
pub fn rewrite_grub_content(content: &str, key: &str, value: &str, etag: &str) -> (r: Result<
    String,
    BootControlError,
>)
    ensures
        etag@ != etag_of(content.spec_bytes()) ==> (r matches Err(
            BootControlError::StateMismatch { expected, actual },
        ) && expected@ == etag@ && actual@ == etag_of(content.spec_bytes())),
        etag@ == etag_of(content.spec_bytes()) ==> (r is Ok <==> all_simple(
            lines_of(content@),
        )),
        etag@ == etag_of(content.spec_bytes()) && !all_simple(lines_of(content@)) ==> (r matches Err(
            e,
        ) && e is ComplexBashDetected),
        r matches Ok(text) ==> text@ == render(set_lines(lines_of(content@), key@, value@)),
{
    if !verify_etag(etag, content.as_bytes()) {
        return Err(
            BootControlError::StateMismatch {
                expected: String::from_str(etag),
                actual: compute_etag_str(content),
            },
        );
    }
    let mut config = parse_grub_config(content)?;
    config.set_value(key, value);
    Ok(config.render())
}

} // verus!
