//! The console keymap baked into the initramfs of an encrypted host: the
//! `KEYMAP=` of `/etc/vconsole.conf` must be a legal keymap name that the
//! installed kbd keymaps provide, or the passphrase prompt at boot would
//! use the wrong layout. Reading the file and searching the keymap trees
//! are the daemon's I/O.

use vstd::prelude::*;
use vstd::string::StringExecFns;
use crate::error::BootControlError;
use crate::grub::{trim, trim_chars};
use crate::immutable_distro::strip_char;
use crate::lines::{split_std_lines, std_lines, views};
use crate::text::{chars_of, copy_range, starts_with_exec, starts_with_seq, string_of};

verus! {

/// The console configuration read by default.
pub const VCONSOLE_CONF: &'static str = "/etc/vconsole.conf";

/// The `KEYMAP=` value of the first line of `lines[i..]` that starts with
/// `KEYMAP=`: trimmed and stripped of double and then single quotes.
pub open spec fn keymap_from(lines: Seq<Seq<char>>, i: int) -> Option<Seq<char>>
    decreases lines.len() - i,
{
    if i < 0 || i >= lines.len() {
        None
    } else if starts_with_seq(lines[i], "KEYMAP="@) {
        Some(strip_char(strip_char(trim(lines[i].skip(7)), '"'), '\''))
    } else {
        keymap_from(lines, i + 1)
    }
}

/// A character that may appear in a keymap name.
pub open spec fn keymap_char(c: char) -> bool {
    ('a' <= c && c <= 'z') || ('A' <= c && c <= 'Z') || ('0' <= c && c <= '9') || c == '-' || c == '_'
        || c == '.' || c == '+'
}

/// A legal keymap name: not empty, made of letters, digits, `-`, `_`,
/// `.` and `+` only (nothing a shell would expand).
pub open spec fn legal_keymap(n: Seq<char>) -> bool {
    n.len() > 0 && forall|i: int| 0 <= i < n.len() ==> keymap_char(#[trigger] n[i])
}

fn strip_quote(s: Vec<char>, c: char) -> (r: Vec<char>)
    ensures
        r@ == strip_char(s@, c),
{
    let mut a: usize = 0;
    let mut b: usize = s.len();
    assert(s@.subrange(0, s@.len() as int) =~= s@);
    while a < b && (s[a] == c || s[b - 1] == c)
        invariant
            a <= b <= s@.len(),
            strip_char(s@, c) == strip_char(s@.subrange(a as int, b as int), c),
        decreases b - a,
    {
        let ghost t = s@.subrange(a as int, b as int);
        if s[a] == c {
            assert(t.drop_first() =~= s@.subrange(a + 1, b as int));
            a = a + 1;
        } else {
            assert(t.drop_last() =~= s@.subrange(a as int, b - 1));
            b = b - 1;
        }
    }
    proof {
        if a == b {
            assert(s@.subrange(a as int, b as int) =~= Seq::<char>::empty());
        }
    }
    copy_range(s.as_slice(), a, b)
}

/// The keymap to look for, from the text of `vconsole.conf`: the value of
/// its first `KEYMAP=` line. A file without one, or a name with a
/// character not legal in a keymap name, is refused with
/// `SecurityPolicyViolation`.
pub fn keymap_to_check(content: &str) -> (r: Result<String, BootControlError>)
    ensures
        match keymap_from(std_lines(content@), 0) {
            None => r matches Err(e) && e matches BootControlError::SecurityPolicyViolation { reason }
                && reason@ == "vconsole.conf has no KEYMAP= assignment"@,
            Some(n) => if legal_keymap(n) {
                r matches Ok(k) && k@ == n
            } else {
                r matches Err(e) && e matches BootControlError::SecurityPolicyViolation { reason }
                    && reason@ == "keymap name '"@ + n + "' contains characters that are not legal in a keymap name"@
            },
        },
{
    proof {
        reveal_strlit("KEYMAP=");
    }
    let lines = split_std_lines(content);
    let ghost ls = views(lines@);
    let prefix = chars_of("KEYMAP=");
    let mut i: usize = 0;
    let mut found: Option<Vec<char>> = None;
    while i < lines.len() && found.is_none()
        invariant
            i <= lines@.len(),
            ls == views(lines@),
            ls == std_lines(content@),
            prefix@ == "KEYMAP="@,
            prefix@.len() == 7,
            match found {
                None => keymap_from(ls, 0) == keymap_from(ls, i as int),
                Some(v) => keymap_from(ls, 0) == Some(v@),
            },
        decreases lines@.len() - i, if found is None { 1int } else { 0int },
    {
        let c = chars_of(lines[i].as_str());
        assert(c@ == ls[i as int]);
        if starts_with_exec(c.as_slice(), prefix.as_slice()) {
            let rest = copy_range(c.as_slice(), 7, c.len());
            assert(rest@ =~= c@.skip(7));
            let t = trim_chars(rest.as_slice());
            let t1 = strip_quote(t, '"');
            let t2 = strip_quote(t1, '\'');
            found = Some(t2);
        } else {
            i = i + 1;
        }
    }
    match found {
        None => Err(BootControlError::SecurityPolicyViolation {
            reason: String::from_str("vconsole.conf has no KEYMAP= assignment"),
        }),
        Some(n) => {
            let mut ok = n.len() > 0;
            let mut k: usize = 0;
            while k < n.len()
                invariant
                    k <= n@.len(),
                    ok == (n@.len() > 0 && forall|j: int| 0 <= j < k ==> keymap_char(#[trigger] n@[j])),
                decreases n@.len() - k,
            {
                let ch = n[k];
                let good = ('a' <= ch && ch <= 'z') || ('A' <= ch && ch <= 'Z') || ('0' <= ch && ch <= '9')
                    || ch == '-' || ch == '_' || ch == '.' || ch == '+';
                if !good {
                    ok = false;
                }
                k = k + 1;
            }
            let name = string_of(n);
            if ok {
                Ok(name)
            } else {
                let mut reason = String::from_str("keymap name '");
                reason.append(name.as_str());
                reason.append("' contains characters that are not legal in a keymap name");
                Err(BootControlError::SecurityPolicyViolation { reason })
            }
        },
    }
}

/// The verdict on a legal keymap name once the keymap trees were searched:
/// the name when a `<name>.map` or `<name>.map.gz` was found, otherwise
/// `SecurityPolicyViolation`.
pub fn keymap_verdict(name: String, found: bool) -> (r: Result<String, BootControlError>)
    ensures
        found ==> r == Ok::<String, BootControlError>(name),
        !found ==> (r matches Err(e) && e matches BootControlError::SecurityPolicyViolation { reason }
            && reason@ == "keymap '"@ + name@ + "' is not installed in any kbd keymap directory"@),
{
    if found {
        Ok(name)
    } else {
        let mut reason = String::from_str("keymap '");
        reason.append(name.as_str());
        reason.append("' is not installed in any kbd keymap directory");
        Err(BootControlError::SecurityPolicyViolation { reason })
    }
}

/// The file names a keymap is installed under: `<name>.map` and
/// `<name>.map.gz`.
pub fn keymap_file_names(name: &str) -> (r: (String, String))
    ensures
        r.0@ == name@ + ".map"@,
        r.1@ == name@ + ".map.gz"@,
{
    let mut a = String::from_str(name);
    a.append(".map");
    let mut b = String::from_str(name);
    b.append(".map.gz");
    (a, b)
}

/// The pieces of a `:`-separated list.
pub open spec fn colon_pieces(s: Seq<char>) -> Seq<Seq<char>>
    decreases s.len(),
{
    if s.len() == 0 {
        seq![Seq::empty()]
    } else {
        let rest = colon_pieces(s.drop_last());
        if s.last() == ':' {
            rest.push(Seq::empty())
        } else {
            rest.update(rest.len() - 1, rest.last().push(s.last()))
        }
    }
}

proof fn lemma_colon_pieces_nonempty(s: Seq<char>)
    ensures
        colon_pieces(s).len() >= 1,
    decreases s.len(),
{
    if s.len() > 0 {
        lemma_colon_pieces_nonempty(s.drop_last());
    }
}

/// The keymap trees searched: the `:`-separated `BOOTCONTROL_KBD_KEYMAP_DIRS`
/// override when set and not empty, otherwise the standard kbd locations.
pub fn kbd_dirs(env_override: Option<&str>) -> (dirs: Vec<String>)
    ensures
        match env_override {
            Some(e) if e@.len() > 0 => dirs@.map_values(|d: String| d@) == colon_pieces(e@),
            _ => dirs@.map_values(|d: String| d@) == seq![
                "/usr/share/kbd/keymaps"@,
                "/usr/lib/kbd/keymaps"@,
                "/usr/share/keymaps"@,
                "/lib/kbd/keymaps"@,
            ],
        },
{
    if let Some(e) = env_override {
        if e.unicode_len() > 0 {
            let c = chars_of(e);
            let mut done: Vec<String> = Vec::new();
            let mut cur: Vec<char> = Vec::new();
            let mut i: usize = 0;
            while i < c.len()
                invariant
                    i <= c@.len(),
                    c@ == e@,
                    done@.map_values(|d: String| d@).push(cur@) == colon_pieces(c@.take(i as int)),
                decreases c@.len() - i,
            {
                let ghost t = c@.take(i + 1);
                assert(t.drop_last() =~= c@.take(i as int));
                proof {
                    lemma_colon_pieces_nonempty(c@.take(i as int));
                }
                if c[i] == ':' {
                    let piece = string_of(cur);
                    done.push(piece);
                    cur = Vec::new();
                    assert(done@.map_values(|d: String| d@).push(cur@) =~= colon_pieces(t));
                } else {
                    let ghost before = cur@;
                    cur.push(c[i]);
                    assert(done@.map_values(|d: String| d@).push(cur@) =~= colon_pieces(t));
                }
                i = i + 1;
            }
            assert(c@.take(c@.len() as int) =~= c@);
            done.push(string_of(cur));
            return done;
        }
    }
    let dirs = vec![
        String::from_str("/usr/share/kbd/keymaps"),
        String::from_str("/usr/lib/kbd/keymaps"),
        String::from_str("/usr/share/keymaps"),
        String::from_str("/lib/kbd/keymaps"),
    ];
    assert(dirs@.map_values(|d: String| d@) =~= seq![
        "/usr/share/kbd/keymaps"@,
        "/usr/lib/kbd/keymaps"@,
        "/usr/share/keymaps"@,
        "/lib/kbd/keymaps"@,
    ]);
    dirs
}

} // verus!
