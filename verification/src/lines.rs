//! Splitting text into lines and joining lines back into text.
//!
//! A line ends at `'\n'` (a carriage return before it stays part of the
//! line, so CRLF text is written back unchanged); a final line without
//! `'\n'` is still a line; text that ends with `'\n'` has no empty line
//! after it. Joining puts `'\n'` after every line.

use vstd::prelude::*;
use crate::text::{chars_of, string_of};
use vstd::string::StringExecFns;

verus! {

/// Index of the first `'\n'` at or after `i`, or the length of `s`.
pub open spec fn line_end(s: Seq<char>, i: int) -> int
    decreases s.len() - i,
{
    if i >= s.len() {
        s.len() as int
    } else if s[i] == '\n' {
        i
    } else {
        line_end(s, i + 1)
    }
}

pub proof fn lemma_line_end_bounds(s: Seq<char>, i: int)
    requires
        0 <= i <= s.len(),
    ensures
        i <= line_end(s, i) <= s.len(),
        line_end(s, i) < s.len() ==> s[line_end(s, i)] == '\n',
        forall|k: int| i <= k < line_end(s, i) ==> s[k] != '\n',
    decreases s.len() - i,
{
    if i < s.len() && s[i] != '\n' {
        lemma_line_end_bounds(s, i + 1);
    }
}

/// The lines of `s` from position `pos` on.
pub open spec fn lines_from(s: Seq<char>, pos: int) -> Seq<Seq<char>>
    decreases s.len() + 1 - pos,
{
    if pos < 0 || pos >= s.len() {
        Seq::empty()
    } else {
        let e = line_end(s, pos);
        proof {
            lemma_line_end_bounds(s, pos);
        }
        seq![s.subrange(pos, e)] + lines_from(s, e + 1)
    }
}

/// The lines of a text.
pub open spec fn lines_of(s: Seq<char>) -> Seq<Seq<char>> {
    lines_from(s, 0)
}

/// A line as it can stand in the result of splitting: no line break.
pub open spec fn is_clean_line(l: Seq<char>) -> bool {
    forall|k: int| 0 <= k < l.len() ==> l[k] != '\n'
}

/// The text made of `lines`, each followed by `'\n'`.
pub open spec fn render(lines: Seq<Seq<char>>) -> Seq<char>
    decreases lines.len(),
{
    if lines.len() == 0 {
        Seq::empty()
    } else {
        render(lines.drop_last()) + lines.last() + seq!['\n']
    }
}

/// The views of a vector of strings.
pub open spec fn views(v: Seq<String>) -> Seq<Seq<char>> {
    v.map_values(|l: String| l@)
}

proof fn lemma_lines_from_clean(s: Seq<char>, pos: int)
    ensures
        forall|k: int| 0 <= k < lines_from(s, pos).len() ==> is_clean_line(
            #[trigger] lines_from(s, pos)[k],
        ),
    decreases s.len() + 1 - pos,
{
    if 0 <= pos < s.len() {
        let e = line_end(s, pos);
        lemma_line_end_bounds(s, pos);
        lemma_lines_from_clean(s, e + 1);
        let l = s.subrange(pos, e);
        assert(is_clean_line(l));
        let rest = lines_from(s, e + 1);
        assert forall|k: int| 0 <= k < lines_from(s, pos).len() implies is_clean_line(
            #[trigger] lines_from(s, pos)[k],
        ) by {
            if k > 0 {
                assert(lines_from(s, pos)[k] == rest[k - 1]);
            }
        }
    }
}

/// Every line that splitting yields is clean.
pub proof fn lemma_lines_clean(s: Seq<char>)
    ensures
        forall|k: int| 0 <= k < lines_of(s).len() ==> is_clean_line(#[trigger] lines_of(s)[k]),
{
    lemma_lines_from_clean(s, 0);
}

proof fn lemma_line_end_shift(a: Seq<char>, b: Seq<char>, i: int)
    requires
        0 <= i,
    ensures
        line_end(a + b, a.len() + i) == a.len() + line_end(b, i),
    decreases b.len() - i,
{
    if i < b.len() {
        assert((a + b)[a.len() + i] == b[i]);
        if b[i] != '\n' {
            lemma_line_end_shift(a, b, i + 1);
        }
    }
}

proof fn lemma_lines_from_shift(a: Seq<char>, b: Seq<char>, i: int)
    requires
        0 <= i,
    ensures
        lines_from(a + b, a.len() + i) == lines_from(b, i),
    decreases b.len() + 1 - i,
{
    if i < b.len() {
        lemma_line_end_shift(a, b, i);
        lemma_line_end_bounds(b, i);
        let e = line_end(b, i);
        assert((a + b).subrange(a.len() + i, a.len() + e) =~= b.subrange(i, e));
        lemma_lines_from_shift(a, b, e + 1);
        assert(a.len() + e + 1 == a.len() + (e + 1));
    }
}

proof fn lemma_line_end_prefix(a: Seq<char>, b: Seq<char>, i: int)
    requires
        0 <= i <= a.len(),
        line_end(a, i) < a.len(),
    ensures
        line_end(a + b, i) == line_end(a, i),
    decreases a.len() - i,
{
    assert((a + b)[i] == a[i]);
    if a[i] != '\n' {
        lemma_line_end_prefix(a, b, i + 1);
    }
}

proof fn lemma_lines_from_concat(a: Seq<char>, b: Seq<char>, i: int)
    requires
        0 <= i <= a.len(),
        a.len() == 0 || a.last() == '\n',
    ensures
        lines_from(a + b, i) == lines_from(a, i) + lines_from(b, 0),
    decreases a.len() - i,
{
    if i == a.len() {
        lemma_lines_from_shift(a, b, 0);
        assert(lines_from(a, i) =~= Seq::<Seq<char>>::empty());
        assert(lines_from(a + b, i) =~= lines_from(a, i) + lines_from(b, 0));
    } else {
        lemma_line_end_bounds(a, i);
        assert(line_end(a, i) < a.len()) by {
            if line_end(a, i) == a.len() {
                assert(a[a.len() - 1] != '\n');
            }
        }
        lemma_line_end_prefix(a, b, i);
        let e = line_end(a, i);
        assert((a + b).subrange(i, e) =~= a.subrange(i, e));
        lemma_lines_from_concat(a, b, e + 1);
        assert(lines_from(a + b, i) =~= lines_from(a, i) + lines_from(b, 0));
    }
}

proof fn lemma_lines_of_single(x: Seq<char>)
    requires
        is_clean_line(x),
    ensures
        lines_of(x + seq!['\n']) == seq![x],
{
    let s = x + seq!['\n'];
    assert forall|k: int| 0 <= k < x.len() implies s[k] != '\n' by {
        assert(s[k] == x[k]);
    }
    assert(line_end(s, x.len() as int) == x.len()) by {
        assert(s[x.len() as int] == '\n');
    }
    lemma_line_end_first(s, 0, x.len() as int);
    assert(s.subrange(0, x.len() as int) =~= x);
    assert(lines_from(s, x.len() as int + 1) =~= Seq::<Seq<char>>::empty());
    assert(lines_of(s) =~= seq![x]);
}

proof fn lemma_line_end_first(s: Seq<char>, i: int, j: int)
    requires
        0 <= i <= j <= s.len(),
        forall|k: int| i <= k < j ==> s[k] != '\n',
        line_end(s, j) == j,
    ensures
        line_end(s, i) == j,
    decreases j - i,
{
    if i < j {
        lemma_line_end_first(s, i + 1, j);
    }
}

/// Splitting the joined text of clean lines gives those lines back.
pub proof fn lemma_lines_of_render(lines: Seq<Seq<char>>)
    requires
        forall|k: int| 0 <= k < lines.len() ==> is_clean_line(#[trigger] lines[k]),
    ensures
        lines_of(render(lines)) == lines,
    decreases lines.len(),
{
    if lines.len() == 0 {
        assert(lines_of(render(lines)) =~= lines);
    } else {
        let p = lines.drop_last();
        assert forall|k: int| 0 <= k < p.len() implies is_clean_line(#[trigger] p[k]) by {
            assert(p[k] == lines[k]);
        }
        lemma_lines_of_render(p);
        let a = render(p);
        let x = lines.last();
        assert(is_clean_line(x)) by {
            assert(x == lines[lines.len() - 1]);
        }
        assert(a.len() == 0 || a.last() == '\n') by {
            if p.len() > 0 {
                assert(a == render(p.drop_last()) + p.last() + seq!['\n']);
            }
        }
        assert(render(lines) == a + (x + seq!['\n'])) by {
            assert(render(lines) =~= a + (x + seq!['\n']));
        }
        lemma_lines_from_concat(a, x + seq!['\n'], 0);
        lemma_lines_of_single(x);
        assert(lines_of(render(lines)) =~= lines);
    }
}

/// Split a text into its lines.
pub fn split_lines(text: &str) -> (lines: Vec<String>)
    ensures
        views(lines@) == lines_of(text@),
{
    let s = chars_of(text);
    let n = s.len();
    let mut out: Vec<String> = Vec::new();
    let mut pos: usize = 0;
    while pos < n
        invariant
            n == s@.len(),
            pos <= n + 1,
            views(out@) + lines_from(s@, pos as int) == lines_of(s@),
            s@ == text@,
        decreases n + 1 - pos,
    {
        let mut e: usize = pos;
        while e < n && s[e] != '\n'
            invariant
                pos <= e <= n,
                n == s@.len(),
                line_end(s@, pos as int) == line_end(s@, e as int),
            decreases n - e,
        {
            e = e + 1;
        }
        proof {
            lemma_line_end_bounds(s@, pos as int);
        }
        let stop = e;
        let mut line: Vec<char> = Vec::new();
        let mut k = pos;
        while k < stop
            invariant
                pos <= k <= stop <= n,
                n == s@.len(),
                line@ == s@.subrange(pos as int, k as int),
            decreases stop - k,
        {
            line.push(s[k]);
            k = k + 1;
            assert(line@ =~= s@.subrange(pos as int, k as int));
        }
        let ghost l = line@;
        assert(l =~= s@.subrange(pos as int, e as int));
        let ghost prev = out@;
        out.push(string_of(line));
        proof {
            assert(views(out@) =~= views(prev) + seq![l]);
            assert(lines_from(s@, pos as int) == seq![l] + lines_from(s@, e + 1));
            assert(views(out@) + lines_from(s@, e + 1) =~= views(prev) + lines_from(s@, pos as int));
        }
        if e < n {
            pos = e + 1;
        } else {
            pos = n;
        }
    }
    out
}

/// Join lines into a text, each line followed by `'\n'`.
pub fn join_lines(lines: &Vec<String>) -> (text: String)
    ensures
        text@ == render(views(lines@)),
{
    let mut out = String::new();
    let mut i: usize = 0;
    while i < lines.len()
        invariant
            i <= lines@.len(),
            out@ == render(views(lines@).take(i as int)),
        decreases lines@.len() - i,
    {
        let ghost before = out@;
        out.append(lines[i].as_str());
        out.append("\n");
        proof {
            reveal_strlit("\n");
            let t = views(lines@).take(i + 1);
            assert(t.drop_last() =~= views(lines@).take(i as int));
            assert(t.last() == lines@[i as int]@);
        }
        i = i + 1;
    }
    assert(views(lines@).take(lines@.len() as int) =~= views(lines@));
    out
}

/// A line without the carriage return that ends it, if any.
pub open spec fn strip_cr(l: Seq<char>) -> Seq<char> {
    if l.len() > 0 && l.last() == '\r' {
        l.drop_last()
    } else {
        l
    }
}

/// The lines `str::lines` yields: a line ends at `'\n'` or `"\r\n"`, and a
/// carriage return ending an unterminated last line stays part of it.
pub open spec fn std_lines(s: Seq<char>) -> Seq<Seq<char>> {
    let ls = lines_of(s);
    Seq::new(
        ls.len(),
        |i: int|
            if i < ls.len() - 1 || (s.len() > 0 && s.last() == '\n') {
                strip_cr(ls[i])
            } else {
                ls[i]
            },
    )
}

/// Split a text into its lines the way `str::lines` does.
pub fn split_std_lines(text: &str) -> (lines: Vec<String>)
    ensures
        views(lines@) == std_lines(text@),
{
    let raw = split_lines(text);
    let cs = chars_of(text);
    let terminated = cs.len() > 0 && cs[cs.len() - 1] == '\n';
    let ghost ls = lines_of(text@);
    let mut out: Vec<String> = Vec::new();
    let mut i: usize = 0;
    while i < raw.len()
        invariant
            i <= raw@.len(),
            views(raw@) == ls,
            ls == lines_of(text@),
            terminated == (text@.len() > 0 && text@.last() == '\n'),
            views(out@) == std_lines(text@).take(i as int),
        decreases raw@.len() - i,
    {
        let c = chars_of(raw[i].as_str());
        assert(c@ == ls[i as int]);
        let strip = (i + 1 < raw.len() || terminated) && c.len() > 0 && c[c.len() - 1] == '\r';
        let line = if strip {
            let mut v: Vec<char> = Vec::new();
            let mut k: usize = 0;
            let last = c.len() - 1;
            while k < last
                invariant
                    last == c@.len() - 1,
                    k <= last,
                    v@ == c@.take(k as int),
                decreases c@.len() - k,
            {
                v.push(c[k]);
                k = k + 1;
                assert(v@ =~= c@.take(k as int));
            }
            assert(v@ =~= c@.drop_last());
            string_of(v)
        } else {
            string_of(c)
        };
        assert(views(out@.push(line)) =~= views(out@).push(line@));
        out.push(line);
        assert(views(out@) =~= std_lines(text@).take(i + 1));
        i = i + 1;
    }
    assert(std_lines(text@).take(raw@.len() as int) =~= std_lines(text@));
    out
}

} // verus!
