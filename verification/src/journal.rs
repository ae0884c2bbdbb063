//! The GUI's audit-log tools: the terminal command that follows one audit
//! job in the journal, and the name of a log export.

use vstd::prelude::*;
use vstd::string::StringExecFns;
use crate::initramfs::{texts, ToolCommand};
use crate::text::{chars_of, decimal, push_all, string_of, u64_to_decimal};

verus! {

/// The terminal emulators tried, in priority order, each with the flags
/// that make it run a command.
pub open spec fn terminal_candidates() -> Seq<(Seq<char>, Seq<Seq<char>>)> {
    seq![
        ("x-terminal-emulator"@, seq!["-e"@]),
        ("gnome-terminal"@, seq!["--"@]),
        ("kgx"@, seq!["--"@]),
        ("konsole"@, seq!["-e"@]),
        ("xfce4-terminal"@, seq!["-x"@]),
        ("alacritty"@, seq!["-e"@]),
        ("kitty"@, seq!["--"@]),
        ("foot"@, Seq::empty()),
        ("xterm"@, seq!["-e"@]),
    ]
}

/// The terminal emulators tried, in priority order.
pub fn terminal_names() -> (v: Vec<&'static str>)
    ensures
        v@.len() == terminal_candidates().len(),
        forall|i: int| 0 <= i < v@.len() ==> (#[trigger] v@[i])@ == terminal_candidates()[i].0,
{
    let v = vec![
        "x-terminal-emulator",
        "gnome-terminal",
        "kgx",
        "konsole",
        "xfce4-terminal",
        "alacritty",
        "kitty",
        "foot",
        "xterm",
    ];
    v
}

fn terminal_flags(i: usize) -> (f: Vec<String>)
    requires
        i < 9,
    ensures
        texts(f@) == terminal_candidates()[i as int].1,
{
    let flag = match i {
        0 => "-e",
        1 => "--",
        2 => "--",
        3 => "-e",
        4 => "-x",
        5 => "-e",
        6 => "--",
        7 => "",
        _ => "-e",
    };
    if i == 7 {
        let f: Vec<String> = Vec::new();
        assert(texts(f@) =~= Seq::<Seq<char>>::empty());
        f
    } else {
        let f = vec![String::from_str(flag)];
        assert(texts(f@) =~= seq![flag@]);
        f
    }
}

/// The `journalctl` invocation that follows the audit events of `job_id`
/// from the daemon's unit.
pub open spec fn journal_args(job_id: Seq<char>) -> Seq<Seq<char>> {
    seq![
        "journalctl"@,
        "-u"@,
        "bootcontrol-daemon.service"@,
        "JOB_ID="@ + job_id,
        "--output=cat"@,
        "--no-pager"@,
    ]
}

/// The first candidate, at or after `i`, that was found on `PATH`.
pub open spec fn first_found(found: Seq<bool>, i: int) -> Option<int>
    decreases found.len() - i,
{
    if i < 0 || i >= found.len() {
        None
    } else if found[i] {
        Some(i)
    } else {
        first_found(found, i + 1)
    }
}

/// The refusal when no candidate terminal is installed.
pub open spec fn no_terminal_text() -> Seq<char> {
    "no supported terminal emulator found on PATH"@
}

/// The command that shows the journal of `job_id` in a terminal: the
/// first candidate found on `PATH` (`found[i]` for the `i`-th candidate),
/// running `journalctl` after its flags; an error when none was found.
pub fn journal_viewer_command(job_id: &str, found: &[bool]) -> (r: Result<ToolCommand, String>)
    requires
        found@.len() == terminal_candidates().len(),
    ensures
        match first_found(found@, 0) {
            Some(i) => r matches Ok(c) && c.binary@ == terminal_candidates()[i].0 && texts(c.args@)
                == terminal_candidates()[i].1 + journal_args(job_id@),
            None => r matches Err(m) && m@ == no_terminal_text(),
        },
{
    let names = terminal_names();
    let mut i: usize = 0;
    while i < found.len()
        invariant
            i <= found@.len(),
            found@.len() == terminal_candidates().len(),
            names@.len() == terminal_candidates().len(),
            forall|k: int| 0 <= k < names@.len() ==> (#[trigger] names@[k])@ == terminal_candidates()[k].0,
            first_found(found@, 0) == first_found(found@, i as int),
        decreases found@.len() - i,
    {
        if found[i] {
            let mut args = terminal_flags(i);
            let ghost flags = texts(args@);
            let mut unit = String::from_str("JOB_ID=");
            unit.append(job_id);
            let tail = vec![
                String::from_str("journalctl"),
                String::from_str("-u"),
                String::from_str("bootcontrol-daemon.service"),
                unit,
                String::from_str("--output=cat"),
                String::from_str("--no-pager"),
            ];
            assert(texts(tail@) =~= journal_args(job_id@));
            let mut k: usize = 0;
            while k < tail.len()
                invariant
                    k <= tail@.len(),
                    texts(args@) == flags + texts(tail@).take(k as int),
                decreases tail@.len() - k,
            {
                let ghost before = args@;
                args.push(tail[k].clone());
                assert(texts(args@) =~= texts(before) + seq![tail@[k as int]@]);
                assert(texts(tail@).take(k + 1) =~= texts(tail@).take(k as int).push(tail@[k as int]@));
                k = k + 1;
            }
            assert(texts(tail@).take(tail@.len() as int) =~= texts(tail@));
            return Ok(ToolCommand { binary: String::from_str(names[i]), args });
        }
        i = i + 1;
    }
    Err(String::from_str("no supported terminal emulator found on PATH"))
}

/// The text with every space and colon written as `-`.
pub open spec fn dashed(s: Seq<char>) -> Seq<char> {
    s.map_values(|c: char| if c == ' ' || c == ':' {
        '-'
    } else {
        c
    })
}

/// The file name a log export is offered under, for the stamp `now`.
pub open spec fn export_name(now: Seq<char>) -> Seq<char> {
    "bootcontrol-logs-"@ + dashed(now) + ".jsonl"@
}

/// The stamp of an export made `secs` seconds after the Unix epoch.
pub open spec fn export_stamp(secs: u64) -> Seq<char> {
    "ts-"@ + decimal(secs as nat)
}

/// The stamp of an export made `secs` seconds after the Unix epoch
/// (`ts-<secs>`).
pub fn export_stamp_at(secs: u64) -> (s: String)
    ensures
        s@ == export_stamp(secs),
{
    let mut v = chars_of("ts-");
    let d = u64_to_decimal(secs);
    push_all(&mut v, d.as_slice());
    string_of(v)
}

/// The file name a log export is offered under: `bootcontrol-logs-`, the
/// stamp with spaces and colons made dashes, then `.jsonl`.
pub fn export_file_name(now: &str) -> (name: String)
    ensures
        name@ == export_name(now@),
{
    let c = chars_of(now);
    let mut out = chars_of("bootcontrol-logs-");
    let ghost start = out@;
    let mut i: usize = 0;
    while i < c.len()
        invariant
            i <= c@.len(),
            c@ == now@,
            out@ == start + dashed(c@.take(i as int)),
        decreases c@.len() - i,
    {
        let ch = c[i];
        out.push(if ch == ' ' || ch == ':' {
            '-'
        } else {
            ch
        });
        assert(dashed(c@.take(i + 1)) =~= dashed(c@.take(i as int)).push(dashed(c@)[i as int]));
        i = i + 1;
    }
    assert(c@.take(c@.len() as int) =~= c@);
    let sfx = chars_of(".jsonl");
    push_all(&mut out, sfx.as_slice());
    string_of(out)
}

} // verus!
