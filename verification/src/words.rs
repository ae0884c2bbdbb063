//! Whitespace-separated words, and the single-line text made of them.

use vstd::prelude::*;
use crate::text::{is_ws, chars_of, string_of, copy_range, push_all};
use crate::grub::{first_non_ws, is_ws_char};

verus! {

/// Index of the first whitespace character at or after `i` (or the length).
pub open spec fn first_ws(s: Seq<char>, i: int) -> int
    decreases s.len() - i,
{
    if i < 0 || i >= s.len() {
        s.len() as int
    } else if is_ws(s[i]) {
        i
    } else {
        first_ws(s, i + 1)
    }
}

pub proof fn lemma_first_non_ws_bounds(s: Seq<char>, i: int)
    requires
        0 <= i <= s.len(),
    ensures
        i <= first_non_ws(s, i) <= s.len(),
        forall|k: int| i <= k < first_non_ws(s, i) ==> is_ws(s[k]),
        first_non_ws(s, i) < s.len() ==> !is_ws(s[first_non_ws(s, i)]),
    decreases s.len() - i,
{
    if i < s.len() && is_ws(s[i]) {
        lemma_first_non_ws_bounds(s, i + 1);
    }
}

pub proof fn lemma_first_ws_bounds(s: Seq<char>, i: int)
    requires
        0 <= i <= s.len(),
    ensures
        i <= first_ws(s, i) <= s.len(),
        forall|k: int| i <= k < first_ws(s, i) ==> !is_ws(s[k]),
        first_ws(s, i) < s.len() ==> is_ws(s[first_ws(s, i)]),
    decreases s.len() - i,
{
    if i < s.len() && !is_ws(s[i]) {
        lemma_first_ws_bounds(s, i + 1);
    }
}

/// The words of `s` from position `i` on.
pub open spec fn words_from(s: Seq<char>, i: int) -> Seq<Seq<char>>
    decreases s.len() + 1 - i,
{
    if i < 0 || i >= s.len() {
        Seq::empty()
    } else {
        let a = first_non_ws(s, i);
        if a >= s.len() {
            Seq::empty()
        } else {
            let b = first_ws(s, a);
            proof {
                lemma_first_non_ws_bounds(s, i);
                lemma_first_ws_bounds(s, a);
            }
            seq![s.subrange(a, b)] + words_from(s, b)
        }
    }
}

/// The whitespace-separated words of `s`.
pub open spec fn words_of(s: Seq<char>) -> Seq<Seq<char>> {
    words_from(s, 0)
}

/// A word: non-empty, without whitespace.
pub open spec fn is_word(w: Seq<char>) -> bool {
    w.len() > 0 && forall|k: int| 0 <= k < w.len() ==> !is_ws(#[trigger] w[k])
}

/// Words separated by single spaces.
pub open spec fn join_words(ws: Seq<Seq<char>>) -> Seq<char>
    decreases ws.len(),
{
    if ws.len() == 0 {
        Seq::empty()
    } else if ws.len() == 1 {
        ws[0]
    } else {
        join_words(ws.drop_last()) + seq![' '] + ws.last()
    }
}

/// The one-line text of a word list: the words separated by single spaces,
/// then `'\n'`.
pub open spec fn line_of_words(ws: Seq<Seq<char>>) -> Seq<char> {
    join_words(ws) + seq!['\n']
}

proof fn lemma_first_non_ws_shift(a: Seq<char>, b: Seq<char>, i: int)
    requires
        0 <= i,
    ensures
        first_non_ws(a + b, a.len() + i) == a.len() + first_non_ws(b, i),
    decreases b.len() - i,
{
    if i < b.len() {
        assert((a + b)[a.len() + i] == b[i]);
        if is_ws(b[i]) {
            lemma_first_non_ws_shift(a, b, i + 1);
        }
    }
}

proof fn lemma_first_ws_shift(a: Seq<char>, b: Seq<char>, i: int)
    requires
        0 <= i,
    ensures
        first_ws(a + b, a.len() + i) == a.len() + first_ws(b, i),
    decreases b.len() - i,
{
    if i < b.len() {
        assert((a + b)[a.len() + i] == b[i]);
        if !is_ws(b[i]) {
            lemma_first_ws_shift(a, b, i + 1);
        }
    }
}

proof fn lemma_words_from_shift(a: Seq<char>, b: Seq<char>, i: int)
    requires
        0 <= i,
    ensures
        words_from(a + b, a.len() + i) == words_from(b, i),
    decreases b.len() + 1 - i,
{
    if i < b.len() {
        lemma_first_non_ws_shift(a, b, i);
        lemma_first_non_ws_bounds(b, i);
        let x = first_non_ws(b, i);
        if x < b.len() {
            lemma_first_ws_shift(a, b, x);
            lemma_first_ws_bounds(b, x);
            let y = first_ws(b, x);
            assert((a + b).subrange(a.len() + x, a.len() + y) =~= b.subrange(x, y));
            lemma_words_from_shift(a, b, y);
        }
    }
}

proof fn lemma_first_non_ws_prefix(a: Seq<char>, b: Seq<char>, i: int)
    requires
        0 <= i <= a.len(),
        first_non_ws(a, i) < a.len(),
    ensures
        first_non_ws(a + b, i) == first_non_ws(a, i),
    decreases a.len() - i,
{
    assert((a + b)[i] == a[i]);
    if is_ws(a[i]) {
        lemma_first_non_ws_prefix(a, b, i + 1);
    }
}

proof fn lemma_first_ws_prefix(a: Seq<char>, b: Seq<char>, i: int)
    requires
        0 <= i <= a.len(),
        first_ws(a, i) < a.len(),
    ensures
        first_ws(a + b, i) == first_ws(a, i),
    decreases a.len() - i,
{
    assert((a + b)[i] == a[i]);
    if !is_ws(a[i]) {
        lemma_first_ws_prefix(a, b, i + 1);
    }
}

proof fn lemma_first_non_ws_skip(a: Seq<char>, b: Seq<char>, i: int)
    requires
        0 <= i <= a.len(),
        first_non_ws(a, i) == a.len(),
    ensures
        first_non_ws(a + b, i) == a.len() + first_non_ws(b, 0),
    decreases a.len() - i,
{
    if i < a.len() {
        assert((a + b)[i] == a[i]);
        lemma_first_non_ws_skip(a, b, i + 1);
    } else {
        lemma_first_non_ws_shift(a, b, 0);
    }
}

/// Splitting `a + b` where `a` ends with whitespace splits each part.
proof fn lemma_words_from_concat(a: Seq<char>, b: Seq<char>, i: int)
    requires
        0 <= i <= a.len(),
        a.len() == 0 || is_ws(a.last()),
    ensures
        words_from(a + b, i) == words_from(a, i) + words_from(b, 0),
    decreases a.len() + 1 - i,
{
    lemma_first_non_ws_bounds(a, i);
    let x = first_non_ws(a, i);
    if x == a.len() {
        lemma_first_non_ws_skip(a, b, i);
        assert(words_from(a, i) =~= Seq::<Seq<char>>::empty());
        if i == a.len() {
            lemma_words_from_shift(a, b, 0);
        } else {
            lemma_first_non_ws_bounds(b, 0);
            let bx = first_non_ws(b, 0);
            if bx < b.len() {
                lemma_first_ws_shift(a, b, bx);
                lemma_first_ws_bounds(b, bx);
                let by = first_ws(b, bx);
                assert((a + b).subrange(a.len() + bx, a.len() + by) =~= b.subrange(bx, by));
                lemma_words_from_shift(a, b, by);
            }
        }
        assert(words_from(a + b, i) =~= words_from(a, i) + words_from(b, 0));
    } else {
        lemma_first_non_ws_prefix(a, b, i);
        lemma_first_ws_bounds(a, x);
        assert(first_ws(a, x) < a.len()) by {
            if first_ws(a, x) == a.len() {
                assert(!is_ws(a[a.len() - 1]));
            }
        }
        lemma_first_ws_prefix(a, b, x);
        let y = first_ws(a, x);
        assert((a + b).subrange(x, y) =~= a.subrange(x, y));
        lemma_words_from_concat(a, b, y);
        assert(words_from(a + b, i) =~= words_from(a, i) + words_from(b, 0));
    }
}

proof fn lemma_words_of_single(x: Seq<char>, c: char)
    requires
        is_word(x),
        is_ws(c),
    ensures
        words_of(x + seq![c]) == seq![x],
{
    let s = x + seq![c];
    assert(s[0] == x[0]);
    assert(first_non_ws(s, 0) == 0);
    lemma_first_ws_bounds(s, 0);
    assert forall|k: int| 0 <= k < x.len() implies !is_ws(s[k]) by {
        assert(s[k] == x[k]);
    }
    assert(s[x.len() as int] == c);
    assert(first_ws(s, 0) == x.len()) by {
        let f = first_ws(s, 0);
        if f < x.len() {
            assert(is_ws(s[f]));
        }
    }
    assert(s.subrange(0, x.len() as int) =~= x);
    lemma_first_non_ws_bounds(s, x.len() as int);
    assert(words_from(s, x.len() as int) =~= Seq::<Seq<char>>::empty());
    assert(words_of(s) =~= seq![x]);
}

/// Trailing whitespace does not change the words.
proof fn lemma_words_trailing(s: Seq<char>, c: char, d: char)
    requires
        is_ws(c),
        is_ws(d),
        s.len() == 0 || !is_ws(s.last()),
    ensures
        words_of(s + seq![c]) == words_of(s + seq![d]),
{
    lemma_words_trailing_from(s, c, d, 0);
}

proof fn lemma_words_trailing_from(s: Seq<char>, c: char, d: char, i: int)
    requires
        is_ws(c),
        is_ws(d),
        0 <= i <= s.len(),
    ensures
        words_from(s + seq![c], i) == words_from(s + seq![d], i),
    decreases s.len() + 1 - i,
{
    let sc = s + seq![c];
    let sd = s + seq![d];
    lemma_first_non_ws_bounds(sc, i);
    lemma_first_non_ws_bounds(sd, i);
    lemma_same_first_non_ws(s, c, d, i);
    let x = first_non_ws(sc, i);
    if x < s.len() {
        lemma_first_ws_bounds(sc, x);
        lemma_first_ws_bounds(sd, x);
        lemma_same_first_ws(s, c, d, x);
        let y = first_ws(sc, x);
        assert(y <= s.len()) by {
            if y > s.len() {
                assert(!is_ws(sc[s.len() as int]));
            }
        }
        assert(sc.subrange(x, y) =~= sd.subrange(x, y));
        lemma_words_trailing_from(s, c, d, y);
    } else {
        assert(x >= s.len());
        assert(sc[s.len() as int] == c);
        assert(sd[s.len() as int] == d);
    }
}

proof fn lemma_same_first_non_ws(s: Seq<char>, c: char, d: char, i: int)
    requires
        is_ws(c),
        is_ws(d),
        0 <= i <= s.len(),
    ensures
        first_non_ws(s + seq![c], i) == first_non_ws(s + seq![d], i),
    decreases s.len() + 1 - i,
{
    if i < s.len() {
        assert((s + seq![c])[i] == s[i]);
        assert((s + seq![d])[i] == s[i]);
        if is_ws(s[i]) {
            lemma_same_first_non_ws(s, c, d, i + 1);
        }
    } else {
        assert((s + seq![c])[i] == c);
        assert((s + seq![d])[i] == d);
        assert(first_non_ws(s + seq![c], i + 1) == s.len() + 1);
        assert(first_non_ws(s + seq![d], i + 1) == s.len() + 1);
    }
}

proof fn lemma_same_first_ws(s: Seq<char>, c: char, d: char, i: int)
    requires
        is_ws(c),
        is_ws(d),
        0 <= i <= s.len(),
    ensures
        first_ws(s + seq![c], i) == first_ws(s + seq![d], i),
    decreases s.len() + 1 - i,
{
    if i < s.len() {
        assert((s + seq![c])[i] == s[i]);
        assert((s + seq![d])[i] == s[i]);
        if !is_ws(s[i]) {
            lemma_same_first_ws(s, c, d, i + 1);
        }
    } else {
        assert((s + seq![c])[i] == c);
        assert((s + seq![d])[i] == d);
    }
}

proof fn lemma_join_words_last(ws: Seq<Seq<char>>)
    requires
        ws.len() > 0,
        forall|k: int| 0 <= k < ws.len() ==> is_word(#[trigger] ws[k]),
    ensures
        join_words(ws).len() > 0,
        !is_ws(join_words(ws).last()),
    decreases ws.len(),
{
    let x = ws.last();
    assert(is_word(ws[ws.len() - 1]));
    assert(!is_ws(x[x.len() - 1]));
    if ws.len() == 1 {
        assert(join_words(ws) == ws[0]);
    } else {
        let j = join_words(ws);
        assert(j == join_words(ws.drop_last()) + seq![' '] + x);
        assert(j.last() == x.last());
    }
}

/// The words of the one-line text of a word list are that list.
pub proof fn lemma_words_of_line(ws: Seq<Seq<char>>)
    requires
        forall|k: int| 0 <= k < ws.len() ==> is_word(#[trigger] ws[k]),
    ensures
        words_of(line_of_words(ws)) == ws,
    decreases ws.len(),
{
    if ws.len() == 0 {
        let s = line_of_words(ws);
        assert(s =~= seq!['\n']);
        assert(first_non_ws(s, 0) == 1) by {
            assert(s[0] == '\n');
            assert(first_non_ws(s, 1) == 1);
        }
        assert(words_of(s) =~= ws);
    } else if ws.len() == 1 {
        assert(join_words(ws) == ws[0]);
        lemma_words_of_single(ws[0], '\n');
        assert(words_of(line_of_words(ws)) =~= ws);
    } else {
        let p = ws.drop_last();
        let x = ws.last();
        assert forall|k: int| 0 <= k < p.len() implies is_word(#[trigger] p[k]) by {
            assert(p[k] == ws[k]);
        }
        assert(is_word(x)) by {
            assert(x == ws[ws.len() - 1]);
        }
        lemma_words_of_line(p);
        let jp = join_words(p);
        lemma_join_words_last(p);
        let a = jp + seq![' '];
        let b = x + seq!['\n'];
        assert(line_of_words(ws) =~= a + b);
        lemma_words_from_concat(a, b, 0);
        lemma_words_trailing(jp, ' ', '\n');
        lemma_words_of_single(x, '\n');
        assert(words_of(line_of_words(ws)) =~= ws);
    }
}

/// Split a text into its whitespace-separated words.
pub fn split_words(text: &str) -> (ws: Vec<String>)
    ensures
        ws@.map_values(|w: String| w@) == words_of(text@),
{
    let s = chars_of(text);
    let n = s.len();
    let mut out: Vec<String> = Vec::new();
    let mut i: usize = 0;
    while i < n
        invariant
            n == s@.len(),
            i <= n,
            s@ == text@,
            out@.map_values(|w: String| w@) + words_from(s@, i as int) == words_of(s@),
        decreases n - i,
    {
        let mut a = i;
        while a < n && is_ws_char(s[a])
            invariant
                i <= a <= n,
                n == s@.len(),
                first_non_ws(s@, i as int) == first_non_ws(s@, a as int),
            decreases n - a,
        {
            a = a + 1;
        }
        if a >= n {
            assert(words_from(s@, i as int) =~= Seq::<Seq<char>>::empty());
            i = n;
        } else {
            let mut b = a;
            while b < n && !is_ws_char(s[b])
                invariant
                    a <= b <= n,
                    n == s@.len(),
                    first_ws(s@, a as int) == first_ws(s@, b as int),
                decreases n - b,
            {
                b = b + 1;
            }
            proof {
                lemma_first_non_ws_bounds(s@, i as int);
                lemma_first_ws_bounds(s@, a as int);
            }
            let w = copy_range(s.as_slice(), a, b);
            let ghost wv = w@;
            let ghost prev = out@;
            out.push(string_of(w));
            proof {
                assert(out@.map_values(|w: String| w@) =~= prev.map_values(|w: String| w@).push(
                    wv,
                ));
                assert(words_from(s@, i as int) == seq![wv] + words_from(s@, b as int));
                assert(out@.map_values(|w: String| w@) + words_from(s@, b as int) =~= prev.map_values(
                    |w: String| w@,
                ) + words_from(s@, i as int));
            }
            i = b;
        }
    }
    assert(words_from(s@, n as int) =~= Seq::<Seq<char>>::empty());
    out
}

/// The one-line text of a word list: words separated by single spaces, then
/// `'\n'`.
pub fn words_to_line(ws: &Vec<String>) -> (text: String)
    ensures
        text@ == line_of_words(ws@.map_values(|w: String| w@)),
{
    let ghost v = ws@.map_values(|w: String| w@);
    let mut out: Vec<char> = Vec::new();
    let mut i: usize = 0;
    while i < ws.len()
        invariant
            i <= ws@.len(),
            v == ws@.map_values(|w: String| w@),
            out@ == join_words(v.take(i as int)),
        decreases ws@.len() - i,
    {
        let w = chars_of(ws[i].as_str());
        if i > 0 {
            out.push(' ');
        }
        push_all(&mut out, w.as_slice());
        proof {
            let t = v.take(i + 1);
            assert(t.drop_last() =~= v.take(i as int));
            assert(t.last() == w@);
            if i == 0 {
                assert(join_words(v.take(0)) =~= Seq::<char>::empty());
                assert(out@ =~= join_words(t));
            } else {
                assert(out@ =~= join_words(t));
            }
        }
        i = i + 1;
    }
    out.push('\n');
    assert(v.take(ws@.len() as int) =~= v);
    string_of(out)
}

} // verus!
