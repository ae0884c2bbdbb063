//! The golden-parachute failsafe GRUB entry.
//!
//! After every successful GRUB write the daemon rewrites a minimal
//! `menuentry` that boots the running kernel with only `root=<root> ro`.
//! Every part of that entry is built here from values parsed out of
//! `/proc/version` and `/proc/mounts` (or found under `/boot`) — never from
//! the GRUB configuration being written, so a bad
//! `GRUB_CMDLINE_LINUX_DEFAULT` cannot reach the failsafe entry. Reading
//! those files and writing the entry atomically is the daemon's I/O.

use vstd::prelude::*;
use vstd::string::StringExecFns;
use crate::lines::{split_std_lines, std_lines, views};
use crate::text::{chars_eq, chars_of, copy_range, push_all, starts_with_exec, starts_with_seq, string_of};
use crate::words::{split_words, words_of};
use crate::snapshot::in_calendar_range;

verus! {

/// The running kernel: its release string and the path of its image.
#[derive(Debug, Clone, PartialEq, Eq)]
pub struct KernelInfo {
    /// Kernel release string, e.g. `"6.8.0-54-generic"`.
    pub version: String,
    /// Absolute path of the kernel image, e.g. `/boot/vmlinuz-6.8.0-54-generic`.
    pub vmlinuz: String,
}

/// The release string `/proc/version` reports: its third
/// whitespace-separated token (`Linux version <release> ...`).
pub open spec fn proc_version_release(content: Seq<char>) -> Option<Seq<char>> {
    let ws = words_of(content);
    if ws.len() >= 3 {
        Some(ws[2])
    } else {
        None
    }
}

/// Parse the kernel release string from the text of `/proc/version`.
pub fn parse_proc_version(content: &str) -> (r: Option<String>)
    ensures
        match r {
            Some(v) => proc_version_release(content@) == Some(v@),
            None => proc_version_release(content@) is None,
        },
{
    let mut ws = split_words(content);
    if ws.len() >= 3 {
        let w = ws.remove(2);
        Some(w)
    } else {
        None
    }
}

/// The device mounted at `/` according to the lines of `/proc/mounts` from
/// `i` on: the first field of the first line whose second field is `/`.
/// Lines with fewer than two fields are skipped.
pub open spec fn root_device_from(lines: Seq<Seq<char>>, i: int) -> Option<Seq<char>>
    decreases lines.len() - i,
{
    if i < 0 || i >= lines.len() {
        None
    } else {
        let fs = words_of(lines[i]);
        if fs.len() >= 2 && fs[1] == seq!['/'] {
            Some(fs[0])
        } else {
            root_device_from(lines, i + 1)
        }
    }
}

/// Extract the block device mounted at `/` from the text of `/proc/mounts`.
pub fn parse_root_device(mounts: &str) -> (r: Option<String>)
    ensures
        match r {
            Some(d) => root_device_from(std_lines(mounts@), 0) == Some(d@),
            None => root_device_from(std_lines(mounts@), 0) is None,
        },
{
    let lines = split_std_lines(mounts);
    let ghost ls = views(lines@);
    let slash: Vec<char> = vec!['/'];
    let mut i: usize = 0;
    while i < lines.len()
        invariant
            i <= lines@.len(),
            ls == views(lines@),
            ls == std_lines(mounts@),
            slash@ == seq!['/'],
            root_device_from(ls, 0) == root_device_from(ls, i as int),
        decreases lines@.len() - i,
    {
        let mut fs = split_words(lines[i].as_str());
        assert(lines@[i as int]@ == ls[i as int]);
        if fs.len() >= 2 {
            let second = chars_of(fs[1].as_str());
            assert(second@ == words_of(ls[i as int])[1]);
            if chars_eq(second.as_slice(), slash.as_slice()) {
                let d = fs.remove(0);
                return Some(d);
            }
        }
        i = i + 1;
    }
    None
}

/// The image path of the kernel release `version`.
pub open spec fn image_path(version: Seq<char>) -> Seq<char> {
    "/boot/vmlinuz-"@ + version
}

/// The kernel named by a release string, with its image under `/boot`.
pub fn kernel_from_release(version: &str) -> (k: KernelInfo)
    ensures
        k.version@ == version@,
        k.vmlinuz@ == image_path(version@),
{
    let mut p = String::from_str("/boot/vmlinuz-");
    p.append(version);
    KernelInfo { version: String::from_str(version), vmlinuz: p }
}

/// The initrd paths tried for a kernel release, in order: the Debian/Ubuntu
/// name, then the Fedora/Arch name.
pub fn initrd_candidates(version: &str) -> (c: Vec<String>)
    ensures
        c@.len() == 2,
        c@[0]@ == "/boot/initrd.img-"@ + version@,
        c@[1]@ == "/boot/initramfs-"@ + version@ + ".img"@,
{
    let mut a = String::from_str("/boot/initrd.img-");
    a.append(version);
    let mut b = String::from_str("/boot/initramfs-");
    b.append(version);
    b.append(".img");
    vec![a, b]
}

/// A file in `/boot` with its modification time (nanoseconds relative to
/// the Unix epoch); only those named `vmlinuz-*` are kernel images.
#[derive(Debug, Clone, PartialEq, Eq)]
pub struct BootImage {
    pub file_name: String,
    pub mtime_nanos: i128,
}

/// The file is a kernel image: its name starts with `vmlinuz-`.
pub open spec fn is_kernel_image(img: BootImage) -> bool {
    starts_with_seq(img.file_name@, "vmlinuz-"@)
}

/// The index of the newest kernel image among `imgs[..n]`: the first one
/// with the greatest modification time, or -1 when there is none.
pub open spec fn newest_among(imgs: Seq<BootImage>, n: int) -> int
    decreases n,
{
    if n <= 0 {
        -1
    } else {
        let b = newest_among(imgs, n - 1);
        if is_kernel_image(imgs[n - 1]) && (b < 0 || imgs[n - 1].mtime_nanos > imgs[b].mtime_nanos) {
            n - 1
        } else {
            b
        }
    }
}

proof fn lemma_newest_among_range(imgs: Seq<BootImage>, n: int)
    requires
        0 <= n <= imgs.len(),
    ensures
        -1 <= newest_among(imgs, n) < n,
        newest_among(imgs, n) >= 0 ==> is_kernel_image(imgs[newest_among(imgs, n)]),
    decreases n,
{
    if n > 0 {
        lemma_newest_among_range(imgs, n - 1);
    }
}

/// The kernel to boot in the failsafe entry: the release `/proc/version`
/// reports when it could be read and parsed; otherwise the newest
/// `vmlinuz-*` image found under `/boot`; otherwise the placeholder release
/// `unknown`, so that the entry is still written.
pub open spec fn chosen_kernel(proc_version: Option<Seq<char>>, imgs: Seq<BootImage>) -> (Seq<char>, Seq<char>) {
    let from_proc = match proc_version {
        Some(c) => proc_version_release(c),
        None => None,
    };
    match from_proc {
        Some(v) => (v, image_path(v)),
        None => {
            let b = newest_among(imgs, imgs.len() as int);
            if b >= 0 {
                let name = imgs[b].file_name@;
                (name.skip(8), "/boot/"@ + name)
            } else {
                ("unknown"@, "/boot/vmlinuz-unknown"@)
            }
        },
    }
}

/// Decide the running kernel from the text of `/proc/version` (`None` when
/// unreadable) and the files listed in `/boot`, of which only the
/// `vmlinuz-*` images count.
pub fn choose_kernel(proc_version: Option<&str>, images: &[BootImage]) -> (k: KernelInfo)
    ensures
        (k.version@, k.vmlinuz@) == chosen_kernel(
            match proc_version {
                Some(c) => Some(c@),
                None => None,
            },
            images@,
        ),
{
    if let Some(c) = proc_version {
        if let Some(v) = parse_proc_version(c) {
            return kernel_from_release(v.as_str());
        }
    }
    let prefix = chars_of("vmlinuz-");
    let mut best: Option<usize> = None;
    let mut i: usize = 0;
    while i < images.len()
        invariant
            prefix@ == "vmlinuz-"@,
            i <= images@.len(),
            match best {
                Some(b) => b as int == newest_among(images@, i as int),
                None => newest_among(images@, i as int) == -1,
            },
        decreases images@.len() - i,
    {
        proof {
            lemma_newest_among_range(images@, i as int);
        }
        let name_i = chars_of(images[i].file_name.as_str());
        let is_image = starts_with_exec(name_i.as_slice(), prefix.as_slice());
        let better = is_image && match best {
            None => true,
            Some(b) => images[i].mtime_nanos > images[b].mtime_nanos,
        };
        if better {
            best = Some(i);
        }
        i = i + 1;
    }
    proof {
        lemma_newest_among_range(images@, images@.len() as int);
    }
    match best {
        Some(b) => {
            let name = chars_of(images[b].file_name.as_str());
            proof {
                reveal_strlit("vmlinuz-");
                assert(is_kernel_image(images@[b as int]));
            }
            let version = copy_range(name.as_slice(), 8, name.len());
            let mut path = chars_of("/boot/");
            push_all(&mut path, name.as_slice());
            assert(version@ =~= name@.skip(8));
            KernelInfo { version: string_of(version), vmlinuz: string_of(path) }
        },
        None => KernelInfo {
            version: String::from_str("unknown"),
            vmlinuz: String::from_str("/boot/vmlinuz-unknown"),
        },
    }
}

/// The `root=` argument of the failsafe entry: `UUID=<uuid>` when the root
/// device was matched to a `/dev/disk/by-uuid` link, the device itself when
/// not, and `/dev/sda1` when no root device was found.
pub fn root_argument(root_device: Option<&str>, uuid: Option<&str>) -> (r: String)
    ensures
        r@ == match root_device {
            None => "/dev/sda1"@,
            Some(d) => match uuid {
                Some(u) => "UUID="@ + u@,
                None => d@,
            },
        },
{
    match root_device {
        None => String::from_str("/dev/sda1"),
        Some(d) => match uuid {
            Some(u) => {
                let mut s = String::from_str("UUID=");
                s.append(u);
                s
            },
            None => String::from_str(d),
        },
    }
}

/// The text of the failsafe entry: a header naming the generation time,
/// then a `menuentry` whose `linux` line holds only the kernel image,
/// `root=<root>` and `ro`, and an `initrd` line only when an initrd exists.
pub open spec fn failsafe_snippet(vmlinuz: Seq<char>, initrd: Option<Seq<char>>, root: Seq<char>, ts: Seq<char>) -> Seq<char> {
    "# BootControl Failsafe Entry — auto-generated, do not edit manually\n# Generated: "@ + ts
        + "\nmenuentry \"Linux (Failsafe — BootControl)\" --class linux {\n    load_video\n    insmod gzio\n    insmod part_gpt\n    insmod ext2\n    linux   "@
        + vmlinuz + " root="@ + root + " ro\n"@ + match initrd {
        Some(p) => "    initrd  "@ + p + "\n"@,
        None => Seq::empty(),
    } + "}\n"@
}

/// Build the failsafe entry for `kernel`, generated at `ts`.
pub fn build_failsafe_snippet(kernel: &KernelInfo, initrd: Option<&str>, root: &str, ts: &str) -> (s: String)
    ensures
        s@ == failsafe_snippet(
            kernel.vmlinuz@,
            match initrd {
                Some(p) => Some(p@),
                None => None,
            },
            root@,
            ts@,
        ),
{
    let mut s = String::from_str("# BootControl Failsafe Entry — auto-generated, do not edit manually\n# Generated: ");
    s.append(ts);
    s.append("\nmenuentry \"Linux (Failsafe — BootControl)\" --class linux {\n    load_video\n    insmod gzio\n    insmod part_gpt\n    insmod ext2\n    linux   ");
    s.append(kernel.vmlinuz.as_str());
    s.append(" root=");
    s.append(root);
    s.append(" ro\n");
    let ghost before = s@;
    match initrd {
        Some(p) => {
            s.append("    initrd  ");
            s.append(p);
            s.append("\n");
        },
        None => {
            assert(s@ =~= before + Seq::<char>::empty());
        },
    }
    s.append("}\n");
    s
}

/// The RFC 3339 text `chrono`'s `DateTime::<Utc>::to_rfc3339` writes for the
/// UTC instant `unix_secs` seconds and `nanos` nanoseconds after the epoch.
pub uninterp spec fn rfc3339_utc(unix_secs: i64, nanos: u32) -> Seq<char>;

/// Calls `chrono::DateTime::<Utc>::from_timestamp(unix_secs, nanos)` and
/// `to_rfc3339`. When `chrono` can represent the instant the text is the
/// one named by [`rfc3339_utc`]; otherwise `None`. Every instant in
/// [`in_calendar_range`] with fewer than 10^9 nanoseconds can be
/// represented; for other instants, whether the conversion succeeds is
/// left unstated.
#[verifier::external_body]
fn rfc3339_text(unix_secs: i64, nanos: u32) -> (t: Option<String>)
    ensures
        t matches Some(s) ==> s@ == rfc3339_utc(unix_secs, nanos),
        in_calendar_range(unix_secs) && nanos < 1_000_000_000 ==> t is Some,
{
    match chrono::DateTime::<chrono::Utc>::from_timestamp(unix_secs, nanos) {
        Some(d) => Some(d.to_rfc3339()),
        None => None,
    }
}

/// The failsafe entry for `kernel` generated at the instant
/// (`unix_secs`, `nanos`); `None` when that instant has no calendar text,
/// which never happens from the epoch through year 9999.
pub fn failsafe_snippet_at(
    kernel: &KernelInfo,
    initrd: Option<&str>,
    root: &str,
    unix_secs: i64,
    nanos: u32,
) -> (r: Option<String>)
    ensures
        in_calendar_range(unix_secs) && nanos < 1_000_000_000 ==> r is Some,
        r matches Some(s) ==> s@ == failsafe_snippet(
            kernel.vmlinuz@,
            match initrd {
                Some(p) => Some(p@),
                None => None,
            },
            root@,
            rfc3339_utc(unix_secs, nanos),
        ),
{
    match rfc3339_text(unix_secs, nanos) {
        Some(ts) => Some(build_failsafe_snippet(kernel, initrd, root, ts.as_str())),
        None => None,
    }
}

} // verus!
