//! systemd-boot loader entries (`/boot/loader/entries/<id>.conf`) and the
//! global `loader.conf`: their `key value` format, the default-entry
//! rules, entry-id validation and the ETag check that guards every write.
//! Listing directories and the locked atomic write are the daemon's I/O.

use vstd::prelude::*;
use vstd::string::StringExecFns;
use vstd::string::StringSliceAdditionalSpecFns;
use crate::error::BootControlError;
use crate::etag::{compute_etag, compute_etag_str, etag_of, verify_etag};
use crate::grub::{first_non_ws, first_non_ws_at, is_ws_char, trim, trim_start, trim_chars};
use crate::lines::{render, split_std_lines, std_lines, views, join_lines};
use crate::text::{
    chars_eq, chars_of, contains_exec, contains_seq, copy_range, is_ws, lowercase_text, push_all,
    string_of, text_less, text_lt, to_lowercase, lemma_text_lt_asym,
    lemma_lt_not_lt_trans,
};
use crate::words::{first_ws, lemma_first_ws_bounds};

verus! {

// ── The `key value` line format ───────────────────────────────────────────

/// The key of a configuration line: the text before its first whitespace.
pub open spec fn line_key(t: Seq<char>) -> Seq<char> {
    t.subrange(0, first_ws(t, 0))
}

/// The value of a configuration line: the text after the whitespace that
/// ends its key, without leading whitespace.
pub open spec fn line_value(t: Seq<char>) -> Seq<char> {
    let w = first_ws(t, 0);
    if w < t.len() {
        trim_start(t.subrange(w + 1, t.len() as int))
    } else {
        Seq::empty()
    }
}

/// A line (without leading whitespace) that sets something: not empty and
/// not a `#` comment.
pub open spec fn is_setting(t: Seq<char>) -> bool {
    t.len() > 0 && t[0] != '#'
}

fn first_ws_at(s: &[char], i: usize) -> (r: usize)
    requires
        i <= s@.len(),
    ensures
        r == first_ws(s@, i as int),
        i <= r <= s@.len(),
{
    let mut j = i;
    while j < s.len() && !is_ws_char(s[j])
        invariant
            i <= j <= s@.len(),
            first_ws(s@, i as int) == first_ws(s@, j as int),
        decreases s@.len() - j,
    {
        j = j + 1;
    }
    j
}

/// Split a line into its key and value.
fn split_key_value(t: &[char]) -> (r: (Vec<char>, Vec<char>))
    ensures
        r.0@ == line_key(t@),
        r.1@ == line_value(t@),
{
    let w = first_ws_at(t, 0);
    let key = copy_range(t, 0, w);
    if w < t.len() {
        let rest = copy_range(t, w + 1, t.len());
        let a = first_non_ws_at(rest.as_slice(), 0);
        let value = copy_range(rest.as_slice(), a, rest.len());
        (key, value)
    } else {
        (key, Vec::new())
    }
}

// ── loader.conf ───────────────────────────────────────────────────────────

/// The value of the first `default` setting among `lines[i..]` (keys
/// compared after lowercasing), or empty text when there is none.
pub open spec fn default_from(lines: Seq<Seq<char>>, i: int) -> Seq<char>
    decreases lines.len() - i,
{
    if i < 0 || i >= lines.len() {
        Seq::empty()
    } else {
        let t = trim(lines[i]);
        if is_setting(t) && lowercase_text(line_key(t)) == "default"@ {
            line_value(t)
        } else {
            default_from(lines, i + 1)
        }
    }
}

/// The `default` entry a `loader.conf` text names (empty when none).
pub open spec fn loader_default(content: Seq<char>) -> Seq<char> {
    default_from(std_lines(content), 0)
}

/// The `default` entry named by the text of a `loader.conf`: the value of
/// its first `default` line, or an empty string.
pub fn loader_conf_default(content: &str) -> (d: String)
    ensures
        d@ == loader_default(content@),
{
    let lines = split_std_lines(content);
    let ghost ls = views(lines@);
    let mut i: usize = 0;
    while i < lines.len()
        invariant
            i <= lines@.len(),
            ls == views(lines@),
            ls == std_lines(content@),
            default_from(ls, 0) == default_from(ls, i as int),
        decreases lines@.len() - i,
    {
        let c = chars_of(lines[i].as_str());
        assert(c@ == ls[i as int]);
        let t = trim_chars(c.as_slice());
        if t.len() > 0 && t[0] != '#' {
            let (key, value) = split_key_value(t.as_slice());
            let lk = to_lowercase(string_of(key).as_str());
            let lkc = chars_of(lk.as_str());
            let want = chars_of("default");
            if chars_eq(lkc.as_slice(), want.as_slice()) {
                return string_of(value);
            }
        }
        i = i + 1;
    }
    String::new()
}

/// Drop every trailing `.conf` from a text.
pub open spec fn strip_conf(s: Seq<char>) -> Seq<char>
    decreases s.len(),
{
    if s.len() >= 5 && s.subrange(s.len() - 5, s.len() as int) == ".conf"@ {
        strip_conf(s.subrange(0, s.len() - 5))
    } else {
        s
    }
}

/// The entry `entry_id` is the one `loader.conf` names: systemd-boot accepts
/// the bare stem (`arch`) or the file name (`arch.conf`).
pub open spec fn names_entry(entry_id: Seq<char>, loader_default: Seq<char>) -> bool {
    let d = trim(loader_default);
    d == entry_id || d == entry_id + ".conf"@ || strip_conf(d) == entry_id
}

/// `k` copies of `.conf`, one after the other.
pub open spec fn conf_suffixes(k: nat) -> Seq<char>
    decreases k,
{
    if k == 0 {
        Seq::empty()
    } else {
        conf_suffixes((k - 1) as nat) + ".conf"@
    }
}

proof fn lemma_conf_suffixes_len(k: nat)
    ensures
        conf_suffixes(k).len() == 5 * k,
    decreases k,
{
    reveal_strlit(".conf");
    if k > 0 {
        lemma_conf_suffixes_len((k - 1) as nat);
    }
}

proof fn lemma_conf_suffixes_split(m: nat, n: nat)
    ensures
        conf_suffixes(m + n) == conf_suffixes(m) + conf_suffixes(n),
    decreases n,
{
    if n == 0 {
        assert(conf_suffixes(m) + conf_suffixes(0) =~= conf_suffixes(m));
    } else {
        lemma_conf_suffixes_split(m, (n - 1) as nat);
        assert(conf_suffixes(m + n) == conf_suffixes((m + n - 1) as nat) + ".conf"@);
        assert(conf_suffixes(m) + conf_suffixes(n) =~= (conf_suffixes(m) + conf_suffixes((n - 1) as nat)) + ".conf"@);
    }
}

/// A text is its `.conf`-stripped stem followed by some number of `.conf`s.
proof fn lemma_strip_conf_suffix(s: Seq<char>) -> (k: nat)
    ensures
        s == strip_conf(s) + conf_suffixes(k),
    decreases s.len(),
{
    if s.len() >= 5 && s.subrange(s.len() - 5, s.len() as int) == ".conf"@ {
        let s1 = s.subrange(0, s.len() - 5);
        let k1 = lemma_strip_conf_suffix(s1);
        assert(s =~= s1 + ".conf"@);
        assert(strip_conf(s1) + conf_suffixes(k1 + 1) =~= (strip_conf(s1) + conf_suffixes(k1)) + ".conf"@);
        k1 + 1
    } else {
        assert(s =~= s + conf_suffixes(0));
        0
    }
}

/// `loader.conf` names an entry exactly when its trimmed default is the
/// entry's id followed by some number of `.conf`s: the bare stem and the
/// file name always name it, and a default that is neither (such as
/// `arch-lts.conf` for the id `arch`) never does.
pub proof fn lemma_default_is_id_with_conf_suffixes(entry_id: Seq<char>, loader_default: Seq<char>)
    ensures
        trim(loader_default) == entry_id ==> names_entry(entry_id, loader_default),
        trim(loader_default) == entry_id + ".conf"@ ==> names_entry(entry_id, loader_default),
        names_entry(entry_id, loader_default) ==> exists|k: nat|
            trim(loader_default) == entry_id + #[trigger] conf_suffixes(k),
{
    let t = trim(loader_default);
    if names_entry(entry_id, loader_default) {
        if t == entry_id {
            assert(t =~= entry_id + conf_suffixes(0));
        } else if t == entry_id + ".conf"@ {
            assert(conf_suffixes(1) =~= ".conf"@) by {
                assert(conf_suffixes(0) + ".conf"@ =~= ".conf"@);
            }
            assert(t == entry_id + conf_suffixes(1));
        } else {
            let k = lemma_strip_conf_suffix(t);
            assert(t == entry_id + conf_suffixes(k));
        }
    }
}

/// Two entries are both the default only when one id is the other
/// followed by `.conf`s (`arch` and `arch.conf`); two ids that differ
/// otherwise, such as `arch` and `arch-lts`, are never both default.
pub proof fn lemma_defaults_share_one_stem(a: Seq<char>, b: Seq<char>, loader_default: Seq<char>)
    requires
        names_entry(a, loader_default),
        names_entry(b, loader_default),
    ensures
        (exists|k: nat| a == b + #[trigger] conf_suffixes(k)) || (exists|k: nat| b == a + #[trigger] conf_suffixes(k)),
{
    lemma_default_is_id_with_conf_suffixes(a, loader_default);
    lemma_default_is_id_with_conf_suffixes(b, loader_default);
    let t = trim(loader_default);
    let ka = choose|k: nat| t == a + #[trigger] conf_suffixes(k);
    let kb = choose|k: nat| t == b + #[trigger] conf_suffixes(k);
    lemma_conf_suffixes_len(ka);
    lemma_conf_suffixes_len(kb);
    if ka >= kb {
        let j = (ka - kb) as nat;
        lemma_conf_suffixes_split(j, kb);
        assert(j + kb == ka);
        lemma_conf_suffixes_len(j);
        let cut = t.len() - 5 * kb;
        assert(t.subrange(0, cut) =~= b);
        assert(t =~= (a + conf_suffixes(j)) + conf_suffixes(kb));
        assert(t.subrange(0, cut) =~= a + conf_suffixes(j));
        assert(b == a + conf_suffixes(j));
    } else {
        let j = (kb - ka) as nat;
        lemma_conf_suffixes_split(j, ka);
        assert(j + ka == kb);
        lemma_conf_suffixes_len(j);
        let cut = t.len() - 5 * ka;
        assert(t.subrange(0, cut) =~= a);
        assert(t =~= (b + conf_suffixes(j)) + conf_suffixes(ka));
        assert(t.subrange(0, cut) =~= b + conf_suffixes(j));
        assert(a == b + conf_suffixes(j));
    }
}

fn ends_with_conf(s: &[char]) -> (r: bool)
    ensures
        r == (s@.len() >= 5 && s@.subrange(s@.len() - 5, s@.len() as int) == ".conf"@),
{
    proof {
        reveal_strlit(".conf");
    }
    let n = s.len();
    if n < 5 {
        return false;
    }
    let r = s[n - 5] == '.' && s[n - 4] == 'c' && s[n - 3] == 'o' && s[n - 2] == 'n' && s[n - 1] == 'f';
    proof {
        let tail = s@.subrange(n - 5, n as int);
        if r {
            assert(tail =~= ".conf"@);
        } else if tail == ".conf"@ {
            assert(tail[0] == s@[n - 5]);
            assert(tail[1] == s@[n - 4]);
            assert(tail[2] == s@[n - 3]);
            assert(tail[3] == s@[n - 2]);
            assert(tail[4] == s@[n - 1]);
        }
    }
    r
}

/// Whether the entry `entry_id` is the default that `loader.conf` names.
pub fn is_entry_default(entry_id: &str, loader_conf_default: &str) -> (r: bool)
    ensures
        r == names_entry(entry_id@, loader_conf_default@),
{
    let raw = chars_of(loader_conf_default);
    let d = trim_chars(raw.as_slice());
    let id = chars_of(entry_id);
    if chars_eq(d.as_slice(), id.as_slice()) {
        return true;
    }
    let mut with_ext = chars_of(entry_id);
    let ext = chars_of(".conf");
    push_all(&mut with_ext, ext.as_slice());
    if chars_eq(d.as_slice(), with_ext.as_slice()) {
        return true;
    }
    let mut end = d.len();
    assert(d@.subrange(0, d@.len() as int) =~= d@);
    while end >= 5 && ends_with_conf(copy_range(d.as_slice(), 0, end).as_slice())
        invariant
            end <= d@.len(),
            strip_conf(d@) == strip_conf(d@.subrange(0, end as int)),
        decreases end,
    {
        assert(d@.subrange(0, end as int).subrange(0, end - 5) =~= d@.subrange(0, end - 5));
        end = end - 5;
    }
    assert(d@.subrange(0, d@.len() as int) =~= d@);
    let stripped = copy_range(d.as_slice(), 0, end);
    chars_eq(stripped.as_slice(), id.as_slice())
}

/// The index of the first line among `lines[i..]` that sets `key` (its key,
/// lowercased, equals `key`), or -1.
pub open spec fn key_line_from(lines: Seq<Seq<char>>, key: Seq<char>, i: int) -> int
    decreases lines.len() - i,
{
    if i < 0 || i >= lines.len() {
        -1
    } else {
        let t = trim_start(lines[i]);
        if is_setting(t) && lowercase_text(line_key(t)) == key {
            i
        } else {
            key_line_from(lines, key, i + 1)
        }
    }
}

/// The lines after setting `key` to `value`: the first line that sets `key`
/// becomes `key value`; without one, `key value` is appended.
pub open spec fn with_key(lines: Seq<Seq<char>>, key: Seq<char>, value: Seq<char>) -> Seq<Seq<char>> {
    let new_line = key + seq![' '] + value;
    let i = key_line_from(lines, key, 0);
    if i >= 0 {
        lines.update(i, new_line)
    } else {
        lines.push(new_line)
    }
}

proof fn lemma_key_line_from_range(lines: Seq<Seq<char>>, key: Seq<char>, i: int)
    requires
        0 <= i,
    ensures
        key_line_from(lines, key, i) == -1 || i <= key_line_from(lines, key, i) < lines.len(),
    decreases lines.len() - i,
{
    if i < lines.len() {
        lemma_key_line_from_range(lines, key, i + 1);
    }
}

/// Update or append `key value` in a `loader.conf`-style text; the result
/// has its lines joined by `'\n'` and ends with `'\n'`.
pub fn update_or_append_key(content: &str, key: &str, value: &str) -> (r: String)
    ensures
        r@ == render(with_key(std_lines(content@), key@, value@)),
{
    let mut lines = split_std_lines(content);
    let ghost ls = views(lines@);
    let mut nl = chars_of(key);
    nl.push(' ');
    let v = chars_of(value);
    push_all(&mut nl, v.as_slice());
    let new_line = string_of(nl);
    assert(new_line@ =~= key@ + seq![' '] + value@);
    let kc = chars_of(key);
    let mut i: usize = 0;
    let mut found: bool = false;
    while i < lines.len() && !found
        invariant
            i <= lines@.len(),
            ls == views(lines@),
            ls == std_lines(content@),
            kc@ == key@,
            !found ==> key_line_from(ls, key@, 0) == key_line_from(ls, key@, i as int),
            found ==> key_line_from(ls, key@, 0) == i && i < lines@.len(),
        decreases lines@.len() - i, if found { 0int } else { 1int },
    {
        let c = chars_of(lines[i].as_str());
        assert(c@ == ls[i as int]);
        let a = first_non_ws_at(c.as_slice(), 0);
        let t = copy_range(c.as_slice(), a, c.len());
        if t.len() > 0 && t[0] != '#' {
            let (k, _v) = split_key_value(t.as_slice());
            let lk = to_lowercase(string_of(k).as_str());
            let lkc = chars_of(lk.as_str());
            if chars_eq(lkc.as_slice(), kc.as_slice()) {
                found = true;
            }
        }
        if !found {
            i = i + 1;
        }
    }
    proof {
        lemma_key_line_from_range(ls, key@, 0);
    }
    if found {
        lines.set(i, new_line);
        assert(views(lines@) =~= ls.update(i as int, key@ + seq![' '] + value@));
    } else {
        lines.push(new_line);
        assert(views(lines@) =~= ls.push(key@ + seq![' '] + value@));
    }
    join_lines(&lines)
}

// ── Setting then reading the default ─────────────────────────────────────

/// A line that `update_or_append_key` takes as setting `key`.
pub open spec fn edits_key(l: Seq<char>, key: Seq<char>) -> bool {
    is_setting(trim_start(l)) && lowercase_text(line_key(trim_start(l))) == key
}

/// A line that reading `loader.conf` takes as the `default` line.
pub open spec fn reads_as_default(l: Seq<char>) -> bool {
    is_setting(trim(l)) && lowercase_text(line_key(trim(l))) == "default"@
}

/// Trimming the end of a line changes neither whether it sets something
/// nor its key.
proof fn lemma_trim_keeps_key(x: Seq<char>)
    ensures
        is_setting(trim(x)) == is_setting(trim_start(x)),
        is_setting(trim(x)) ==> line_key(trim(x)) == line_key(trim_start(x)),
{
    crate::grub::lemma_first_non_ws(x, 0);
    crate::grub::lemma_end_non_ws(x, x.len() as int);
    let a = first_non_ws(x, 0);
    let b = crate::grub::end_non_ws(x, x.len() as int);
    let t = trim(x);
    let u = trim_start(x);
    if a < b {
        assert(t =~= x.subrange(a, b));
        assert(u =~= x.subrange(a, x.len() as int));
        assert(t[0] == u[0]);
        lemma_first_ws_bounds(t, 0);
        let w = first_ws(t, 0);
        lemma_first_ws_agree(t, u, 0);
        assert(line_key(t) =~= line_key(u)) by {
            assert forall|k: int| 0 <= k < w implies t[k] == u[k] by {}
        }
    } else {
        assert(t.len() == 0);
        if a < x.len() {
            assert(!is_ws(x[a]));
            assert(a < b) by {
                if b <= a {
                    assert(is_ws(x[a]));
                }
            }
        }
        assert(u.len() == 0);
    }
}

/// The key of a trimmed line is found the same way in its untrimmed tail:
/// the trimmed line ends with a non-whitespace character, after which the
/// tail holds only whitespace.
proof fn lemma_first_ws_agree(t: Seq<char>, u: Seq<char>, i: int)
    requires
        0 <= i <= t.len(),
        t.len() <= u.len(),
        t.len() > 0,
        !is_ws(t.last()),
        forall|k: int| 0 <= k < t.len() ==> t[k] == u[k],
        t.len() < u.len() ==> is_ws(u[t.len() as int]),
    ensures
        first_ws(t, i) == first_ws(u, i),
    decreases t.len() - i,
{
    if i < t.len() {
        assert(t[i] == u[i]);
        if !is_ws(t[i]) {
            lemma_first_ws_agree(t, u, i + 1);
        }
    } else {
        assert(i == t.len());
        if i < u.len() {
            assert(is_ws(u[i]));
        }
    }
}

/// Dropping a final carriage return does not change a trimmed line.
proof fn lemma_trim_strip_cr(x: Seq<char>)
    ensures
        trim(crate::lines::strip_cr(x)) == trim(x),
{
    if x.len() > 0 && x.last() == '\r' {
        let y = x.drop_last();
        crate::grub::lemma_first_non_ws(x, 0);
        crate::grub::lemma_first_non_ws(y, 0);
        crate::grub::lemma_end_non_ws(x, x.len() as int);
        crate::grub::lemma_end_non_ws(y, y.len() as int);
        assert(is_ws(x[x.len() - 1]));
        assert(crate::grub::end_non_ws(x, x.len() as int) == crate::grub::end_non_ws(x, y.len() as int));
        lemma_end_non_ws_prefix(x, y, y.len() as int);
        lemma_first_non_ws_prefix(x, y, 0);
        let a = first_non_ws(x, 0);
        let b = crate::grub::end_non_ws(x, x.len() as int);
        if a < b {
            assert(trim(y) =~= trim(x));
        } else {
            assert(trim(x).len() == 0);
            assert(trim(y).len() == 0);
        }
    }
}

proof fn lemma_end_non_ws_prefix(x: Seq<char>, y: Seq<char>, j: int)
    requires
        0 <= j <= y.len() <= x.len(),
        forall|k: int| 0 <= k < y.len() ==> x[k] == y[k],
    ensures
        crate::grub::end_non_ws(x, j) == crate::grub::end_non_ws(y, j),
    decreases j,
{
    if j > 0 {
        assert(x[j - 1] == y[j - 1]);
        lemma_end_non_ws_prefix(x, y, j - 1);
    }
}

proof fn lemma_first_non_ws_prefix(x: Seq<char>, y: Seq<char>, i: int)
    requires
        0 <= i <= y.len(),
        y.len() + 1 == x.len(),
        forall|k: int| 0 <= k < y.len() ==> x[k] == y[k],
        is_ws(x.last()),
    ensures
        first_non_ws(x, i) == first_non_ws(y, i) || (first_non_ws(x, i) == x.len() && first_non_ws(y, i)
            == y.len()),
    decreases y.len() - i,
{
    if i < y.len() {
        assert(x[i] == y[i]);
        if is_ws(y[i]) {
            lemma_first_non_ws_prefix(x, y, i + 1);
        }
    } else {
        assert(is_ws(x[i]));
        assert(first_non_ws(x, i + 1) == x.len());
    }
}

/// A line as `loader.conf` is read back after a write: reading sees the
/// `default` line exactly where editing saw it.
proof fn lemma_read_agrees_with_edit(l: Seq<char>)
    ensures
        reads_as_default(crate::lines::strip_cr(l)) == edits_key(l, "default"@),
        line_value(trim(crate::lines::strip_cr(l))) == line_value(trim(l)),
{
    lemma_trim_strip_cr(l);
    lemma_trim_keeps_key(l);
}

proof fn lemma_key_line_first(lines: Seq<Seq<char>>, key: Seq<char>, i: int)
    requires
        0 <= i,
    ensures
        key_line_from(lines, key, i) == -1 || (i <= key_line_from(lines, key, i) < lines.len() && edits_key(
            lines[key_line_from(lines, key, i)],
            key,
        )),
        forall|k: int|
            i <= k < lines.len() && (key_line_from(lines, key, i) == -1 || k < key_line_from(lines, key, i))
                ==> !edits_key(#[trigger] lines[k], key),
    decreases lines.len() - i,
{
    if i < lines.len() {
        lemma_key_line_first(lines, key, i + 1);
    }
}

proof fn lemma_default_found(m: Seq<Seq<char>>, i: int, j: int)
    requires
        0 <= i <= j < m.len(),
        reads_as_default(m[j]),
        forall|k: int| i <= k < j ==> !reads_as_default(#[trigger] m[k]),
    ensures
        default_from(m, i) == line_value(trim(m[j])),
    decreases j - i,
{
    if i < j {
        assert(!reads_as_default(m[i]));
        lemma_default_found(m, i + 1, j);
    }
}

/// Setting `default` to `id` and reading `loader.conf` back gives `id`,
/// for an id without line breaks or surrounding whitespace (the name of
/// the lowercase mapping is taken as fixing the already-lowercase key
/// `default`).
proof fn lemma_default_then_read(content: Seq<char>, id: Seq<char>)
    requires
        storable_value(id),
        lowercase_text("default"@) == "default"@,
    ensures
        loader_default(render(with_key(std_lines(content), "default"@, id))) == id,
{
    reveal_strlit("default");
    let key = "default"@;
    let s = std_lines(content);
    let new_line = key + seq![' '] + id;
    let l = with_key(s, key, id);
    assert(plain_key(key));
    lemma_field_line_reads_back(key, id);
    crate::lines::lemma_lines_clean(content);
    lemma_key_line_first(s, key, 0);
    assert forall|k: int| 0 <= k < l.len() implies crate::lines::is_clean_line(#[trigger] l[k]) by {
        let j = key_line_from(s, key, 0);
        if k < s.len() && (j < 0 || k != j) {
            assert(l[k] == s[k]);
            let ls = crate::lines::lines_of(content);
            assert(crate::lines::is_clean_line(ls[k]));
            assert forall|q: int| 0 <= q < s[k].len() implies s[k][q] != '\n' by {
                assert(s[k][q] == ls[k][q]);
            }
        } else {
            assert(l[k] == new_line);
        }
    }
    crate::lines::lemma_lines_of_render(l);
    let r = render(l);
    assert(l.len() > 0);
    assert(r == render(l.drop_last()) + l.last() + seq!['\n']);
    let m = std_lines(r);
    assert forall|k: int| 0 <= k < l.len() implies #[trigger] m[k] == crate::lines::strip_cr(l[k]) by {}
    let j = key_line_from(s, key, 0);
    let at = if j >= 0 { j } else { s.len() as int };
    assert(l[at] == new_line);
    assert(m[at] == new_line);
    assert(trim(new_line) == trim(crate::lines::strip_cr(new_line)));
    assert(lowercase_text(line_key(trim(new_line))) == key);
    assert forall|k: int| 0 <= k < at implies !reads_as_default(#[trigger] m[k]) by {
        assert(l[k] == s[k]);
        assert(m[k] == crate::lines::strip_cr(l[k]));
        if j >= 0 {
            assert(0 <= k < j);
        } else {
            assert(0 <= k < s.len());
        }
        assert(!edits_key(s[k], key));
        lemma_read_agrees_with_edit(s[k]);
    }
    lemma_default_found(m, 0, at);
}

// ── Entry ids and writes ──────────────────────────────────────────────────

/// A safe entry id: a filename stem that is not empty and holds no path
/// separator and no `..`.
pub open spec fn valid_entry_id(id: Seq<char>) -> bool {
    id.len() > 0 && !id.contains('/') && !id.contains('\\') && !contains_seq(id, seq!['.', '.'])
}

/// Refuse an entry id that is not a safe filename stem, with
/// `MalformedValue { key: "id", reason: "invalid entry id: '<id>'" }`.
pub fn validate_entry_id(id: &str) -> (r: Result<(), BootControlError>)
    ensures
        r is Ok <==> valid_entry_id(id@),
        r matches Err(e) ==> (e matches BootControlError::MalformedValue { key, reason } && key@
            == "id"@ && reason@ == "invalid entry id: '"@ + id@ + "'"@),
{
    let c = chars_of(id);
    let mut bad = c.len() == 0;
    let mut i: usize = 0;
    while i < c.len()
        invariant
            i <= c@.len(),
            c@ == id@,
            bad == (c@.len() == 0 || exists|k: int| 0 <= k < i && (c@[k] == '/' || c@[k] == '\\')),
        decreases c@.len() - i,
    {
        if c[i] == '/' || c[i] == '\\' {
            bad = true;
        }
        i = i + 1;
    }
    let dots = chars_of("..");
    proof {
        reveal_strlit("..");
        assert(dots@ =~= seq!['.', '.']);
    }
    if !bad && contains_exec(c.as_slice(), dots.as_slice()) {
        bad = true;
    }
    proof {
        if id@.contains('/') {
            let k = choose|k: int| 0 <= k < id@.len() && id@[k] == '/';
            assert(c@[k] == '/');
        }
        if id@.contains('\\') {
            let k = choose|k: int| 0 <= k < id@.len() && id@[k] == '\\';
            assert(c@[k] == '\\');
        }
    }
    if bad {
        let mut reason = String::from_str("invalid entry id: '");
        reason.append(id);
        reason.append("'");
        return Err(BootControlError::MalformedValue { key: String::from_str("id"), reason });
    }
    Ok(())
}

/// The file name of the entry `id` inside the entries directory.
pub fn entry_file_name(id: &str) -> (name: String)
    ensures
        name@ == id@ + ".conf"@,
{
    let mut name = String::from_str(id);
    name.append(".conf");
    name
}

/// The new text of `loader.conf` making `id` the default: its current text
/// (`None` when the file does not exist) with the `default` line updated or
/// appended, or just `default <id>` for a new file. An unsafe id is refused.
pub fn loader_conf_with_default(current: Option<&str>, id: &str) -> (r: Result<String, BootControlError>)
    ensures
        !valid_entry_id(id@) ==> r is Err && r->Err_0 is MalformedValue,
        valid_entry_id(id@) ==> (r matches Ok(t) && t@ == match current {
            Some(c) => render(with_key(std_lines(c@), "default"@, id@)),
            None => "default "@ + id@ + seq!['\n'],
        }),
        // Reading the new text back names `id` as the default.
        storable_value(id@) ==> (r matches Ok(t) ==> loader_default(t@) == id@),
{
    match validate_entry_id(id) {
        Err(e) => Err(e),
        Ok(()) => {
            // `default` is its own lowercase form, so the line written is
            // the one reading looks for.
            let key_form = to_lowercase("default");
            proof {
                reveal_strlit("default");
                assert(key_form@ == "default"@);
            }
            match current {
                Some(c) => {
                    let t = update_or_append_key(c, "default", id);
                    proof {
                        if storable_value(id@) {
                            lemma_default_then_read(c@, id@);
                        }
                    }
                    Ok(t)
                },
                None => {
                    let mut t = String::from_str("default ");
                    t.append(id);
                    t.append("\n");
                    proof {
                        reveal_strlit("\n");
                        if storable_value(id@) {
                            lemma_default_then_read(Seq::empty(), id@);
                            assert(std_lines(Seq::<char>::empty()) =~= Seq::<Seq<char>>::empty());
                            let nl = "default"@ + seq![' '] + id@;
                            assert(with_key(Seq::<Seq<char>>::empty(), "default"@, id@) =~= seq![nl]);
                            reveal_strlit("default ");
                            assert(seq![nl].drop_last() =~= Seq::<Seq<char>>::empty());
                            assert(render(seq![nl]) == render(Seq::<Seq<char>>::empty()) + nl + seq!['\n']);
                            assert(render(seq![nl]) =~= t@);
                        }
                    }
                    Ok(t)
                },
            }
        },
    }
}

/// The ETag check under the write lock. `current` is the file's bytes, or
/// `None` when the file does not exist yet. An existing file's bytes must
/// have the expected ETag; an empty expected ETag is accepted only for a
/// file that does not exist yet. Otherwise the write is refused with
/// `StateMismatch` carrying both ETags (that of no bytes for a missing file).
pub fn check_expected_etag(expected: &str, current: Option<&[u8]>) -> (r: Result<(), BootControlError>)
    ensures
        r is Ok <==> match current {
            Some(c) => expected@ == etag_of(c@),
            None => expected@.len() == 0,
        },
        r matches Err(e) ==> (e matches BootControlError::StateMismatch { expected: x, actual: a }
            && x@ == expected@ && a@ == etag_of(
            match current {
                Some(c) => c@,
                None => Seq::<u8>::empty(),
            },
        )),
{
    match current {
        Some(c) => {
            if !verify_etag(expected, c) {
                return Err(BootControlError::StateMismatch {
                    expected: String::from_str(expected),
                    actual: compute_etag(c),
                });
            }
            Ok(())
        },
        None => {
            if expected.unicode_len() != 0 {
                let empty: Vec<u8> = Vec::new();
                assert(empty@ =~= Seq::<u8>::empty());
                return Err(BootControlError::StateMismatch {
                    expected: String::from_str(expected),
                    actual: compute_etag(empty.as_slice()),
                });
            }
            Ok(())
        },
    }
}

/// The ETag of `loader.conf` as it stands: that of its bytes, or of no
/// bytes when it does not exist.
pub open spec fn loader_conf_etag(current: Option<Seq<char>>) -> Seq<char> {
    etag_of(
        match current {
            Some(c) => vstd::utf8::encode_utf8(c),
            None => Seq::<u8>::empty(),
        },
    )
}

/// The guarded rewrite of `loader.conf` that makes `id` the default, given
/// its current text (`None` when it does not exist) and the caller's ETag.
/// The id is checked first: an unsafe one is `MalformedValue`. Then the
/// ETag: it must be that of the current bytes, and an empty ETag is taken
/// only for a file that does not exist; otherwise `StateMismatch` carries
/// both ETags. Only then is the new text made.
pub fn loader_conf_rewrite(current: Option<&str>, id: &str, expected_etag: &str) -> (r: Result<String, BootControlError>)
    ensures
        !valid_entry_id(id@) ==> (r matches Err(e) && e matches BootControlError::MalformedValue { key, reason }
            && key@ == "id"@ && reason@ == "invalid entry id: '"@ + id@ + "'"@),
        valid_entry_id(id@) && !(match current {
            Some(c) => expected_etag@ == etag_of(vstd::utf8::encode_utf8(c@)),
            None => expected_etag@.len() == 0,
        }) ==> (r matches Err(e) && e matches BootControlError::StateMismatch { expected, actual }
            && expected@ == expected_etag@ && actual@ == loader_conf_etag(
            match current {
                Some(c) => Some(c@),
                None => None,
            },
        )),
        valid_entry_id(id@) && (match current {
            Some(c) => expected_etag@ == etag_of(vstd::utf8::encode_utf8(c@)),
            None => expected_etag@.len() == 0,
        }) ==> (r matches Ok(t) && t@ == match current {
            Some(c) => render(with_key(std_lines(c@), "default"@, id@)),
            None => "default "@ + id@ + seq!['\n'],
        }),
{
    validate_entry_id(id)?;
    let checked = match current {
        Some(c) => check_expected_etag(expected_etag, Some(c.as_bytes())),
        None => check_expected_etag(expected_etag, None),
    };
    match checked {
        Err(e) => Err(e),
        Ok(()) => loader_conf_with_default(current, id),
    }
}

// ── Loader entries ────────────────────────────────────────────────────────

/// The fields of a loader entry that BootControl reads and writes.
#[derive(Debug, Clone, PartialEq, Eq)]
pub struct LoaderEntry {
    /// `title` — the menu title.
    pub title: Option<String>,
    /// `linux` — the kernel image path.
    pub linux: Option<String>,
    /// `initrd` — the initramfs path.
    pub initrd: Option<String>,
    /// `options` — the kernel command line.
    pub options: Option<String>,
    /// `machine-id` — the machine ID.
    pub machine_id: Option<String>,
}

/// The view of an optional text.
pub open spec fn opt_view(o: Option<String>) -> Option<Seq<char>> {
    match o {
        Some(s) => Some(s@),
        None => None,
    }
}

/// The value of the first setting among `lines[i..]` whose key is `key`.
pub open spec fn entry_field_from(lines: Seq<Seq<char>>, key: Seq<char>, i: int) -> Option<Seq<char>>
    decreases lines.len() - i,
{
    if i < 0 || i >= lines.len() {
        None
    } else {
        let t = trim(lines[i]);
        if is_setting(t) && line_key(t) == key {
            Some(line_value(t))
        } else {
            entry_field_from(lines, key, i + 1)
        }
    }
}

/// The value a loader entry text gives `key`: that of its first `key`
/// line, if any.
pub open spec fn entry_field(content: Seq<char>, key: Seq<char>) -> Option<Seq<char>> {
    entry_field_from(std_lines(content), key, 0)
}

/// The entry a loader entry text describes.
pub open spec fn parses_to(content: Seq<char>, e: LoaderEntry) -> bool {
    &&& opt_view(e.title) == entry_field(content, "title"@)
    &&& opt_view(e.linux) == entry_field(content, "linux"@)
    &&& opt_view(e.initrd) == entry_field(content, "initrd"@)
    &&& opt_view(e.options) == entry_field(content, "options"@)
    &&& opt_view(e.machine_id) == entry_field(content, "machine-id"@)
}

fn field_of(lines: &Vec<String>, key: &str) -> (r: Option<String>)
    ensures
        opt_view(r) == entry_field_from(views(lines@), key@, 0),
{
    let ghost ls = views(lines@);
    let kc = chars_of(key);
    let mut i: usize = 0;
    while i < lines.len()
        invariant
            i <= lines@.len(),
            ls == views(lines@),
            kc@ == key@,
            entry_field_from(ls, key@, 0) == entry_field_from(ls, key@, i as int),
        decreases lines@.len() - i,
    {
        let c = chars_of(lines[i].as_str());
        assert(c@ == ls[i as int]);
        let t = trim_chars(c.as_slice());
        if t.len() > 0 && t[0] != '#' {
            let (k, v) = split_key_value(t.as_slice());
            if chars_eq(k.as_slice(), kc.as_slice()) {
                return Some(string_of(v));
            }
        }
        i = i + 1;
    }
    None
}

/// Parse a loader entry text: each field takes the value of its first
/// `key value` line; blank lines, `#` comments and other keys are skipped.
pub fn parse_loader_entry(content: &str) -> (e: LoaderEntry)
    ensures
        parses_to(content@, e),
{
    let lines = split_std_lines(content);
    LoaderEntry {
        title: field_of(&lines, "title"),
        linux: field_of(&lines, "linux"),
        initrd: field_of(&lines, "initrd"),
        options: field_of(&lines, "options"),
        machine_id: field_of(&lines, "machine-id"),
    }
}

/// The line of a present field.
pub open spec fn field_line(key: Seq<char>, v: Option<Seq<char>>) -> Seq<Seq<char>> {
    match v {
        Some(x) => seq![key + seq![' '] + x],
        None => Seq::empty(),
    }
}

/// The lines of an entry: one `key value` line per present field, in the
/// order title, linux, initrd, options, machine-id.
pub open spec fn entry_lines(e: LoaderEntry) -> Seq<Seq<char>> {
    field_line("title"@, opt_view(e.title)) + field_line("linux"@, opt_view(e.linux))
        + field_line("initrd"@, opt_view(e.initrd)) + field_line("options"@, opt_view(e.options))
        + field_line("machine-id"@, opt_view(e.machine_id))
}

fn push_field(lines: &mut Vec<String>, key: &str, v: &Option<String>)
    ensures
        views(final(lines)@) == views(old(lines)@) + field_line(key@, opt_view(*v)),
{
    match v {
        Some(x) => {
            proof {
                reveal_strlit(" ");
            }
            let mut l = String::from_str(key);
            l.append(" ");
            l.append(x.as_str());
            assert(l@ =~= key@ + seq![' '] + x@);
            let ghost before = lines@;
            lines.push(l);
            assert(views(lines@) =~= views(before) + seq![key@ + seq![' '] + x@]);
        },
        None => {
            assert(views(lines@) =~= views(lines@) + Seq::<Seq<char>>::empty());
        },
    }
}

/// The text of a loader entry: one `key value` line per present field.
pub fn serialize_loader_entry(e: &LoaderEntry) -> (t: String)
    ensures
        t@ == render(entry_lines(*e)),
{
    let mut lines: Vec<String> = Vec::new();
    assert(views(lines@) =~= Seq::<Seq<char>>::empty());
    push_field(&mut lines, "title", &e.title);
    push_field(&mut lines, "linux", &e.linux);
    push_field(&mut lines, "initrd", &e.initrd);
    push_field(&mut lines, "options", &e.options);
    push_field(&mut lines, "machine-id", &e.machine_id);
    assert(views(lines@) =~= entry_lines(*e));
    join_lines(&lines)
}

// ── Writing then reading an entry ────────────────────────────────────────

/// A value that a `key value` line stores unchanged: no line break and no
/// whitespace at either end (reading trims both ends).
pub open spec fn storable_value(v: Seq<char>) -> bool {
    &&& forall|k: int| 0 <= k < v.len() ==> v[k] != '\n'
    &&& v.len() > 0 ==> !is_ws(v[0]) && !is_ws(v.last())
}

/// Every present field of the entry is storable.
pub open spec fn storable_entry(e: LoaderEntry) -> bool {
    &&& (e.title matches Some(v) ==> storable_value(v@))
    &&& (e.linux matches Some(v) ==> storable_value(v@))
    &&& (e.initrd matches Some(v) ==> storable_value(v@))
    &&& (e.options matches Some(v) ==> storable_value(v@))
    &&& (e.machine_id matches Some(v) ==> storable_value(v@))
}

/// A line sets `key`.
pub open spec fn sets_key(l: Seq<char>, key: Seq<char>) -> bool {
    is_setting(trim(l)) && line_key(trim(l)) == key
}

/// A key of the entry format: not empty, no whitespace, not a comment.
pub open spec fn plain_key(k: Seq<char>) -> bool {
    &&& k.len() > 0
    &&& k[0] != '#'
    &&& forall|i: int| 0 <= i < k.len() ==> !is_ws(#[trigger] k[i])
}

proof fn lemma_first_ws_of_key(t: Seq<char>, n: int, i: int)
    requires
        0 <= i <= n <= t.len(),
        forall|j: int| 0 <= j < n ==> !is_ws(#[trigger] t[j]),
        n < t.len() ==> is_ws(t[n]),
    ensures
        first_ws(t, i) == n,
    decreases n - i,
{
    if i < n {
        lemma_first_ws_of_key(t, n, i + 1);
    }
}

proof fn lemma_end_non_ws_last(s: Seq<char>)
    requires
        s.len() > 0,
        !is_ws(s.last()),
    ensures
        crate::grub::end_non_ws(s, s.len() as int) == s.len(),
{
}

/// The line `key value` sets `key` to `value`.
proof fn lemma_field_line_reads_back(key: Seq<char>, v: Seq<char>)
    requires
        plain_key(key),
        storable_value(v),
    ensures
        sets_key(key + seq![' '] + v, key),
        line_value(trim(key + seq![' '] + v)) == v,
        crate::lines::is_clean_line(key + seq![' '] + v),
        (key + seq![' '] + v).last() != '\r',
        forall|other: Seq<char>| #[trigger] sets_key(key + seq![' '] + v, other) ==> other == key,
{
    let l = key + seq![' '] + v;
    assert(l[0] == key[0]);
    assert(first_non_ws(l, 0) == 0);
    assert forall|k: int| 0 <= k < l.len() implies l[k] != '\n' by {
        if k < key.len() {
            assert(l[k] == key[k]);
            assert(!is_ws(key[k]));
        } else if k > key.len() {
            assert(l[k] == v[k - key.len() - 1]);
        }
    }
    if v.len() == 0 {
        assert(l =~= key.push(' '));
        assert(is_ws(l[l.len() - 1]));
        assert(!is_ws(l[key.len() - 1])) by {
            assert(l[key.len() - 1] == key[key.len() - 1]);
        }
        assert(crate::grub::end_non_ws(l, key.len() as int) == key.len());
        assert(crate::grub::end_non_ws(l, l.len() as int) == key.len());
        let t = trim(l);
        assert(t =~= key);
        assert forall|j: int| 0 <= j < key.len() implies !is_ws(#[trigger] t[j]) by {
            assert(t[j] == key[j]);
        }
        lemma_first_ws_of_key(t, key.len() as int, 0);
        assert(line_key(t) =~= key);
        assert(line_value(t) =~= v);
    } else {
        assert(l.last() == v.last());
        lemma_end_non_ws_last(l);
        let t = trim(l);
        assert(t =~= l);
        assert forall|j: int| 0 <= j < key.len() implies !is_ws(#[trigger] t[j]) by {
            assert(t[j] == key[j]);
        }
        assert(t[key.len() as int] == ' ');
        lemma_first_ws_of_key(t, key.len() as int, 0);
        assert(line_key(t) =~= key);
        assert(t.subrange(key.len() + 1 as int, t.len() as int) =~= v);
        assert(first_non_ws(v, 0) == 0);
        assert(line_value(t) =~= v);
    }
}

proof fn lemma_field_shift(a: Seq<Seq<char>>, b: Seq<Seq<char>>, key: Seq<char>, i: int)
    requires
        0 <= i <= b.len(),
    ensures
        entry_field_from(a + b, key, a.len() + i) == entry_field_from(b, key, i),
    decreases b.len() - i,
{
    if i < b.len() {
        assert((a + b)[a.len() + i] == b[i]);
        lemma_field_shift(a, b, key, i + 1);
    }
}

proof fn lemma_field_skip(a: Seq<Seq<char>>, b: Seq<Seq<char>>, key: Seq<char>, i: int)
    requires
        0 <= i <= a.len(),
        forall|j: int| 0 <= j < a.len() ==> !sets_key(#[trigger] a[j], key),
    ensures
        entry_field_from(a + b, key, i) == entry_field_from(b, key, 0),
    decreases a.len() - i,
{
    if i < a.len() {
        assert((a + b)[i] == a[i]);
        lemma_field_skip(a, b, key, i + 1);
    } else {
        lemma_field_shift(a, b, key, 0);
    }
}

/// What looking `key` up in the lines of one field gives, and the same
/// lookup continued past them.
proof fn lemma_field_lines_lookup(
    fkey: Seq<char>,
    v: Option<Seq<char>>,
    rest: Seq<Seq<char>>,
    key: Seq<char>,
)
    requires
        plain_key(fkey),
        v matches Some(x) ==> storable_value(x),
    ensures
        entry_field_from(field_line(fkey, v) + rest, key, 0) == if fkey == key && v is Some {
            v
        } else {
            entry_field_from(rest, key, 0)
        },
        good_lines(field_line(fkey, v)),
{
    match v {
        Some(x) => {
            lemma_field_line_reads_back(fkey, x);
            let l = fkey + seq![' '] + x;
            assert((field_line(fkey, v) + rest)[0] == l);
            if fkey == key {
                assert(entry_field_from(field_line(fkey, v) + rest, key, 0) == Some(line_value(trim(l))));
            } else {
                assert(!sets_key(l, key));
                lemma_field_skip(field_line(fkey, v), rest, key, 0);
            }
        },
        None => {
            assert(field_line(fkey, v) + rest =~= rest);
        },
    }
}

/// Lines that come back unchanged from a rendered text: no line break,
/// not empty, no final carriage return.
pub open spec fn good_lines(ls: Seq<Seq<char>>) -> bool {
    forall|k: int|
        0 <= k < ls.len() ==> crate::lines::is_clean_line(#[trigger] ls[k]) && ls[k].len() > 0
            && ls[k].last() != '\r'
}

proof fn lemma_good_lines_concat(a: Seq<Seq<char>>, b: Seq<Seq<char>>)
    requires
        good_lines(a),
        good_lines(b),
    ensures
        good_lines(a + b),
{
    assert forall|k: int| 0 <= k < (a + b).len() implies crate::lines::is_clean_line(#[trigger] (a + b)[k])
        && (a + b)[k].len() > 0 && (a + b)[k].last() != '\r' by {
        if k < a.len() {
            assert((a + b)[k] == a[k]);
        } else {
            assert((a + b)[k] == b[k - a.len()]);
        }
    }
}

proof fn lemma_std_lines_render(ls: Seq<Seq<char>>)
    requires
        good_lines(ls),
    ensures
        std_lines(render(ls)) == ls,
{
    crate::lines::lemma_lines_of_render(ls);
    let s = render(ls);
    if ls.len() > 0 {
        assert(s == render(ls.drop_last()) + ls.last() + seq!['\n']);
        assert(s.last() == '\n');
    }
    assert forall|i: int| 0 <= i < ls.len() implies crate::lines::strip_cr(#[trigger] ls[i]) == ls[i] by {}
    assert(std_lines(s) =~= ls);
}

/// The value the lines of an entry give `key`: that of its field named
/// `key`, if the entry has it.
proof fn lemma_entry_lookup(e: LoaderEntry, key: Seq<char>)
    requires
        storable_entry(e),
    ensures
        good_lines(entry_lines(e)),
        entry_field_from(entry_lines(e), key, 0) == if key == "title"@ {
            opt_view(e.title)
        } else if key == "linux"@ {
            opt_view(e.linux)
        } else if key == "initrd"@ {
            opt_view(e.initrd)
        } else if key == "options"@ {
            opt_view(e.options)
        } else if key == "machine-id"@ {
            opt_view(e.machine_id)
        } else {
            None
        },
{
    reveal_strlit("title");
    reveal_strlit("linux");
    reveal_strlit("initrd");
    reveal_strlit("options");
    reveal_strlit("machine-id");
    let f1 = field_line("title"@, opt_view(e.title));
    let f2 = field_line("linux"@, opt_view(e.linux));
    let f3 = field_line("initrd"@, opt_view(e.initrd));
    let f4 = field_line("options"@, opt_view(e.options));
    let l5 = field_line("machine-id"@, opt_view(e.machine_id));
    let l4 = f4 + l5;
    let l3 = f3 + l4;
    let l2 = f2 + l3;
    let l1 = f1 + l2;
    assert(entry_lines(e) =~= l1);
    assert(l5 =~= l5 + Seq::<Seq<char>>::empty());
    lemma_field_lines_lookup("machine-id"@, opt_view(e.machine_id), Seq::empty(), key);
    lemma_field_lines_lookup("options"@, opt_view(e.options), l5, key);
    lemma_field_lines_lookup("initrd"@, opt_view(e.initrd), l4, key);
    lemma_field_lines_lookup("linux"@, opt_view(e.linux), l3, key);
    lemma_field_lines_lookup("title"@, opt_view(e.title), l2, key);
    lemma_good_lines_concat(f4, l5);
    lemma_good_lines_concat(f3, l4);
    lemma_good_lines_concat(f2, l3);
    lemma_good_lines_concat(f1, l2);
}

/// Writing an entry and reading the text back gives the same entry: every
/// field is read back as written, provided each present value holds no
/// line break and no whitespace at either end.
pub proof fn lemma_loader_entry_round_trip(e: LoaderEntry)
    requires
        storable_entry(e),
    ensures
        parses_to(render(entry_lines(e)), e),
{
    reveal_strlit("title");
    reveal_strlit("linux");
    reveal_strlit("initrd");
    reveal_strlit("options");
    reveal_strlit("machine-id");
    lemma_entry_lookup(e, "title"@);
    lemma_entry_lookup(e, "linux"@);
    lemma_entry_lookup(e, "initrd"@);
    lemma_entry_lookup(e, "options"@);
    lemma_entry_lookup(e, "machine-id"@);
    lemma_std_lines_render(entry_lines(e));
}

/// A loader entry record as returned to callers.
#[derive(Debug, Clone, PartialEq, Eq)]
pub struct EntryRecord {
    /// Filename stem (e.g. `"arch"` for `/boot/loader/entries/arch.conf`).
    pub id: String,
    /// Entry title, if present.
    pub title: Option<String>,
    /// Kernel image path (e.g. `/vmlinuz-linux`).
    pub linux: Option<String>,
    /// Initramfs path.
    pub initrd: Option<String>,
    /// Kernel command-line options.
    pub options: Option<String>,
    /// Machine ID from `/etc/machine-id`.
    pub machine_id: Option<String>,
    /// Per-file SHA-256 ETag.
    pub etag: String,
    /// `true` when this entry is the default `loader.conf` names.
    pub is_default: bool,
}

/// The record of the entry `id` whose file holds `content`, given the
/// `default` value of `loader.conf`.
pub fn entry_record(id: &str, content: &str, loader_default: &str) -> (r: EntryRecord)
    ensures
        r.id@ == id@,
        parses_to(
            content@,
            LoaderEntry {
                title: r.title,
                linux: r.linux,
                initrd: r.initrd,
                options: r.options,
                machine_id: r.machine_id,
            },
        ),
        r.etag@ == etag_of(content.spec_bytes()),
        r.is_default == names_entry(id@, loader_default@),
{
    let e = parse_loader_entry(content);
    EntryRecord {
        id: String::from_str(id),
        title: e.title,
        linux: e.linux,
        initrd: e.initrd,
        options: e.options,
        machine_id: e.machine_id,
        etag: compute_etag_str(content),
        is_default: is_entry_default(id, loader_default),
    }
}

/// The id of a directory entry that is a loader entry: the stem of a name
/// with extension `conf` (a name whose only dot starts it has no
/// extension).
pub open spec fn conf_stem(name: Seq<char>) -> Option<Seq<char>> {
    if name.len() > 5 && name.subrange(name.len() - 5, name.len() as int) == ".conf"@ {
        Some(name.subrange(0, name.len() - 5))
    } else {
        None
    }
}

/// The entry id of a file name in the entries directory, when it is a
/// `.conf` file.
pub fn entry_id_of(file_name: &str) -> (r: Option<String>)
    ensures
        opt_view(r) == conf_stem(file_name@),
{
    let c = chars_of(file_name);
    if c.len() > 5 && ends_with_conf(c.as_slice()) {
        let stem = copy_range(c.as_slice(), 0, c.len() - 5);
        Some(string_of(stem))
    } else {
        None
    }
}

/// Records in ascending order of id.
pub open spec fn ascending_ids(v: Seq<EntryRecord>) -> bool {
    forall|i: int, j: int| 0 <= i < j < v.len() ==> !text_lt(v[j].id@, v[i].id@)
}

/// Order records by id; records with equal ids keep their relative order.
pub fn sort_by_id(records: Vec<EntryRecord>) -> (r: Vec<EntryRecord>)
    ensures
        ascending_ids(r@),
        r@.to_multiset() == records@.to_multiset(),
{
    let mut rest = records;
    let ghost orig = rest@;
    let n = rest.len();
    let mut src: Vec<EntryRecord> = Vec::new();
    while rest.len() > 0
        invariant
            src@.len() + rest@.len() == orig.len(),
            rest@ == orig.take(rest@.len() as int),
            forall|k: int| 0 <= k < src@.len() ==> src@[k] == orig[orig.len() - 1 - k],
        decreases rest@.len(),
    {
        let x = rest.pop().unwrap();
        src.push(x);
        assert(rest@ =~= orig.take(rest@.len() as int));
    }
    let mut out: Vec<EntryRecord> = Vec::new();
    assert(orig.take(0) =~= Seq::<EntryRecord>::empty());
    let mut i: usize = 0;
    while i < n
        invariant
            n == orig.len(),
            i <= n,
            src@.len() == n - i,
            forall|k: int| 0 <= k < src@.len() ==> src@[k] == orig[orig.len() - 1 - k],
            ascending_ids(out@),
            out@.to_multiset() == orig.take(i as int).to_multiset(),
        decreases n - i,
    {
        let x = src.pop().unwrap();
        assert(x == orig[i as int]);
        let mut p: usize = 0;
        while p < out.len() && !text_less(x.id.as_str(), out[p].id.as_str())
            invariant
                p <= out@.len(),
                forall|k: int| 0 <= k < p ==> !text_lt(x.id@, (#[trigger] out@[k]).id@),
            decreases out@.len() - p,
        {
            p = p + 1;
        }
        let ghost old_out = out@;
        proof {
            assert forall|k: int| p <= k < old_out.len() implies !text_lt((#[trigger] old_out[k]).id@, x.id@) by {
                if k > p {
                    lemma_lt_not_lt_trans(x.id@, old_out[p as int].id@, old_out[k].id@);
                }
                lemma_text_lt_asym(old_out[k].id@, x.id@);
            }
        }
        out.insert(p, x);
        proof {
            vstd::seq_lib::to_multiset_insert(old_out, p as int, x);
            assert(orig.take(i + 1) =~= orig.take(i as int).push(x));
            vstd::seq_lib::to_multiset_build(orig.take(i as int), x);
            assert forall|a: int, b: int| 0 <= a < b < out@.len() implies !text_lt(out@[b].id@, out@[a].id@) by {
                if a < p && b == p {
                } else if a == p {
                    assert(out@[b] == old_out[b - 1]);
                } else if b < p {
                } else if a < p && b > p {
                    assert(out@[b] == old_out[b - 1]);
                } else {
                    assert(out@[a] == old_out[a - 1]);
                    assert(out@[b] == old_out[b - 1]);
                }
            }
        }
        i = i + 1;
    }
    assert(orig.take(n as int) =~= orig);
    out
}

/// The entry at position `i` of a directory listing is listed: its name is
/// a `.conf` file's and its content could be read.
pub open spec fn listed_entry(names: Seq<String>, contents: Seq<Option<String>>, i: int) -> bool {
    conf_stem(names[i]@) is Some && contents[i] is Some
}

/// `r` is the record of the listed entry at `i`, given the `default` value
/// `d` of `loader.conf`.
pub open spec fn record_of_listing(
    r: EntryRecord,
    names: Seq<String>,
    contents: Seq<Option<String>>,
    i: int,
    d: Seq<char>,
) -> bool {
    &&& conf_stem(names[i]@) == Some(r.id@)
    &&& contents[i] matches Some(c) && parses_to(
        c@,
        LoaderEntry {
            title: r.title,
            linux: r.linux,
            initrd: r.initrd,
            options: r.options,
            machine_id: r.machine_id,
        },
    ) && r.etag@ == etag_of(vstd::utf8::encode_utf8(c@))
    &&& r.is_default == names_entry(r.id@, d)
}

/// `r` is the record of some listed entry.
pub open spec fn from_listing(r: EntryRecord, names: Seq<String>, contents: Seq<Option<String>>, d: Seq<char>) -> bool {
    exists|i: int|
        0 <= i < names.len() && listed_entry(names, contents, i) && #[trigger] record_of_listing(
            r,
            names,
            contents,
            i,
            d,
        )
}

/// The number of listed entries among the first `n`.
pub open spec fn listed_count(names: Seq<String>, contents: Seq<Option<String>>, n: int) -> nat
    decreases n,
{
    if n <= 0 {
        0
    } else {
        listed_count(names, contents, n - 1) + if listed_entry(names, contents, n - 1) {
            1nat
        } else {
            0nat
        }
    }
}

/// The `default` value of a `loader.conf` text, or empty when it could not
/// be read.
pub open spec fn listing_default(loader_conf: Option<&str>) -> Seq<char> {
    match loader_conf {
        Some(c) => loader_default(c@),
        None => Seq::empty(),
    }
}

/// The loader entries of a directory listing, in id order: `names[i]` is a
/// file name in the entries directory and `contents[i]` its text (`None`
/// when it could not be read as text). Names that are not `.conf` files and
/// unreadable entries are skipped; each record's default flag comes from
/// `loader_conf` (its text, `None` when unreadable, which names no default).
pub fn read_all_entries(names: &[String], contents: &[Option<String>], loader_conf: Option<&str>) -> (r: Vec<
    EntryRecord,
>)
    requires
        names@.len() == contents@.len(),
    ensures
        ascending_ids(r@),
        r@.len() == listed_count(names@, contents@, names@.len() as int),
        forall|k: int|
            0 <= k < r@.len() ==> #[trigger] from_listing(r@[k], names@, contents@, listing_default(loader_conf)),
        forall|i: int|
            #![trigger listed_entry(names@, contents@, i)]
            0 <= i < names@.len() && listed_entry(names@, contents@, i) ==> exists|k: int|
                0 <= k < r@.len() && #[trigger] record_of_listing(
                    r@[k],
                    names@,
                    contents@,
                    i,
                    listing_default(loader_conf),
                ),
{
    let ghost dd = listing_default(loader_conf);
    let d = match loader_conf {
        Some(c) => loader_conf_default(c),
        None => String::new(),
    };
    let mut collected: Vec<EntryRecord> = Vec::new();
    let ghost mut src: Seq<int> = Seq::empty();
    let mut i: usize = 0;
    while i < names.len()
        invariant
            i <= names@.len(),
            names@.len() == contents@.len(),
            d@ == dd,
            collected@.len() == src.len(),
            collected@.len() == listed_count(names@, contents@, i as int),
            forall|k: int|
                0 <= k < src.len() ==> 0 <= #[trigger] src[k] < i && listed_entry(names@, contents@, src[k])
                    && record_of_listing(collected@[k], names@, contents@, src[k], dd),
            forall|j: int|
                #![trigger listed_entry(names@, contents@, j)]
                0 <= j < i && listed_entry(names@, contents@, j) ==> exists|k: int|
                    0 <= k < src.len() && #[trigger] src[k] == j,
        decreases names@.len() - i,
    {
        let ghost old_src = src;
        match entry_id_of(names[i].as_str()) {
            Some(id) => match &contents[i] {
                Some(c) => {
                    let rec = entry_record(id.as_str(), c.as_str(), d.as_str());
                    collected.push(rec);
                    proof {
                        src = src.push(i as int);
                        assert(src[src.len() - 1] == i as int);
                    }
                },
                None => {},
            },
            None => {},
        }
        proof {
            assert forall|j: int|
                #![trigger listed_entry(names@, contents@, j)]
                0 <= j < i + 1 && listed_entry(names@, contents@, j) implies exists|k: int|
                    0 <= k < src.len() && #[trigger] src[k] == j by {
                if j < i {
                    let k = choose|k: int| 0 <= k < old_src.len() && #[trigger] old_src[k] == j;
                    assert(src[k] == j);
                } else {
                    assert(src[src.len() - 1] == j);
                }
            }
        }
        i = i + 1;
    }
    let ghost coll = collected@;
    let r = sort_by_id(collected);
    proof {
        assert forall|k: int| 0 <= k < r@.len() implies #[trigger] from_listing(
            r@[k],
            names@,
            contents@,
            listing_default(loader_conf),
        ) by {
            vstd::seq_lib::to_multiset_contains(r@, r@[k]);
            vstd::seq_lib::to_multiset_contains(coll, r@[k]);
            assert(r@.contains(r@[k]));
            let j = choose|j: int| 0 <= j < coll.len() && coll[j] == r@[k];
            let i0 = src[j];
            assert(0 <= i0 < names@.len() && listed_entry(names@, contents@, i0) && record_of_listing(
                r@[k],
                names@,
                contents@,
                i0,
                listing_default(loader_conf),
            ));
        }
        assert forall|i: int|
            #![trigger listed_entry(names@, contents@, i)]
            0 <= i < names@.len() && listed_entry(names@, contents@, i) implies exists|k: int|
            0 <= k < r@.len() && #[trigger] record_of_listing(r@[k], names@, contents@, i, dd) by {
            let j = choose|j: int| 0 <= j < src.len() && #[trigger] src[j] == i;
            vstd::seq_lib::to_multiset_contains(coll, coll[j]);
            vstd::seq_lib::to_multiset_contains(r@, coll[j]);
            assert(coll.contains(coll[j]));
            let k = choose|k: int| 0 <= k < r@.len() && r@[k] == coll[j];
            assert(record_of_listing(r@[k], names@, contents@, i, dd));
        }
        vstd::seq_lib::to_multiset_len(r@);
        vstd::seq_lib::to_multiset_len(coll);
    }
    r
}

} // verus!
