//! Immutable-distribution detection: hosts whose boot configuration is
//! owned by an image or a declarative system (ostree, rpm-ostree, SteamOS,
//! NixOS, Vanilla OS) refuse in-place writes. Probing marker files and
//! `PATH` is the daemon's I/O; the classification is decided here.

use vstd::prelude::*;
use vstd::string::StringExecFns;
use crate::error::BootControlError;
use crate::lines::{split_std_lines, std_lines, views};
use crate::text::{chars_of, chars_eq, copy_range, starts_with_exec, starts_with_seq, string_of};
use crate::grub::trim_chars;
use crate::grub::trim;

verus! {

/// An immutable distribution family.
#[derive(Debug, Clone, Copy, PartialEq, Eq, Structural)]
pub enum ImmutableDistro {
    /// Fedora Silverblue/Kinoite and other rpm-ostree hosts.
    RpmOstree,
    /// A bare ostree host without `rpm-ostree`.
    Ostree,
    /// SteamOS (Steam Deck).
    SteamOs,
    /// NixOS.
    NixOs,
    /// Vanilla OS.
    VanillaOs,
}

/// The tag of a distribution family, as reported to clients and accepted
/// by the `BOOTCONTROL_IMMUTABLE_DISTRO_OVERRIDE` override.
pub open spec fn distro_tag(d: ImmutableDistro) -> Seq<char> {
    match d {
        ImmutableDistro::RpmOstree => "rpm-ostree"@,
        ImmutableDistro::Ostree => "ostree"@,
        ImmutableDistro::SteamOs => "steamos"@,
        ImmutableDistro::NixOs => "nixos"@,
        ImmutableDistro::VanillaOs => "vanilla-os"@,
    }
}

impl ImmutableDistro {
    /// The family's tag.
    pub fn tag(&self) -> (t: &'static str)
        ensures
            t@ == distro_tag(*self),
    {
        match self {
            ImmutableDistro::RpmOstree => "rpm-ostree",
            ImmutableDistro::Ostree => "ostree",
            ImmutableDistro::SteamOs => "steamos",
            ImmutableDistro::NixOs => "nixos",
            ImmutableDistro::VanillaOs => "vanilla-os",
        }
    }
}

/// The family a tag names, if any.
pub open spec fn distro_of_tag(t: Seq<char>) -> Option<ImmutableDistro> {
    if t == "rpm-ostree"@ {
        Some(ImmutableDistro::RpmOstree)
    } else if t == "ostree"@ {
        Some(ImmutableDistro::Ostree)
    } else if t == "steamos"@ {
        Some(ImmutableDistro::SteamOs)
    } else if t == "nixos"@ {
        Some(ImmutableDistro::NixOs)
    } else if t == "vanilla-os"@ {
        Some(ImmutableDistro::VanillaOs)
    } else {
        None
    }
}

fn text_is(a: &[char], b: &str) -> (r: bool)
    ensures
        r == (a@ == b@),
{
    let bc = chars_of(b);
    chars_eq(a, bc.as_slice())
}

/// The family a tag names (`rpm-ostree`, `ostree`, `steamos`, `nixos`,
/// `vanilla-os`), if any.
pub fn distro_from_tag(tag: &str) -> (r: Option<ImmutableDistro>)
    ensures
        r == distro_of_tag(tag@),
{
    let t = chars_of(tag);
    if text_is(t.as_slice(), "rpm-ostree") {
        Some(ImmutableDistro::RpmOstree)
    } else if text_is(t.as_slice(), "ostree") {
        Some(ImmutableDistro::Ostree)
    } else if text_is(t.as_slice(), "steamos") {
        Some(ImmutableDistro::SteamOs)
    } else if text_is(t.as_slice(), "nixos") {
        Some(ImmutableDistro::NixOs)
    } else if text_is(t.as_slice(), "vanilla-os") {
        Some(ImmutableDistro::VanillaOs)
    } else {
        None
    }
}

/// The evidence a host shows of being immutable.
#[derive(Debug, Clone, Copy, PartialEq, Eq, Structural)]
pub struct DistroIndicators {
    /// `/run/ostree-booted` exists.
    pub ostree_booted_marker: bool,
    /// `/sysroot/ostree/deploy` exists.
    pub ostree_sysroot_exists: bool,
    /// `rpm-ostree` is on `PATH`.
    pub rpm_ostree_available: bool,
    /// SteamOS release file, or an os-release ID of `steamos`/`holo`.
    pub steamos_marker: bool,
    /// `/etc/NIXOS`, or an os-release ID of `nixos`.
    pub nixos_marker: bool,
    /// An os-release ID of `vanilla`/`vanilla-os`.
    pub vanillaos_marker: bool,
}

/// The family the evidence points to, by priority: an ostree deployment
/// (rpm-ostree when its tool is available, bare ostree otherwise), then
/// SteamOS, NixOS, Vanilla OS.
pub open spec fn classify(i: DistroIndicators) -> Option<ImmutableDistro> {
    if i.ostree_booted_marker || i.ostree_sysroot_exists {
        if i.rpm_ostree_available {
            Some(ImmutableDistro::RpmOstree)
        } else {
            Some(ImmutableDistro::Ostree)
        }
    } else if i.steamos_marker {
        Some(ImmutableDistro::SteamOs)
    } else if i.nixos_marker {
        Some(ImmutableDistro::NixOs)
    } else if i.vanillaos_marker {
        Some(ImmutableDistro::VanillaOs)
    } else {
        None
    }
}

/// Classify a host from its evidence.
pub fn detect_immutable_distro(i: &DistroIndicators) -> (r: Option<ImmutableDistro>)
    ensures
        r == classify(*i),
{
    if i.ostree_booted_marker || i.ostree_sysroot_exists {
        if i.rpm_ostree_available {
            Some(ImmutableDistro::RpmOstree)
        } else {
            Some(ImmutableDistro::Ostree)
        }
    } else if i.steamos_marker {
        Some(ImmutableDistro::SteamOs)
    } else if i.nixos_marker {
        Some(ImmutableDistro::NixOs)
    } else if i.vanillaos_marker {
        Some(ImmutableDistro::VanillaOs)
    } else {
        None
    }
}

/// A text without every leading and trailing occurrence of `c`.
pub open spec fn strip_char(s: Seq<char>, c: char) -> Seq<char>
    decreases s.len(),
{
    if s.len() > 0 && s[0] == c {
        strip_char(s.drop_first(), c)
    } else if s.len() > 0 && s.last() == c {
        strip_char(s.drop_last(), c)
    } else {
        s
    }
}

/// ASCII lowercase of a character (other characters unchanged).
pub open spec fn ascii_lower(c: char) -> char {
    if 'A' <= c && c <= 'Z' {
        ((c as int) + 32) as char
    } else {
        c
    }
}

/// ASCII lowercase of a text.
pub open spec fn ascii_lowered(s: Seq<char>) -> Seq<char> {
    s.map_values(|c: char| ascii_lower(c))
}

/// The `ID=` value of the first line of `lines[i..]` that starts with
/// `ID=`: trimmed, stripped of double and then single quotes, and
/// lowercased.
pub open spec fn os_id_from(lines: Seq<Seq<char>>, i: int) -> Option<Seq<char>>
    decreases lines.len() - i,
{
    if i < 0 || i >= lines.len() {
        None
    } else if starts_with_seq(lines[i], "ID="@) {
        Some(ascii_lowered(strip_char(strip_char(trim(lines[i].skip(3)), '"'), '\'')))
    } else {
        os_id_from(lines, i + 1)
    }
}

fn strip_char_exec(s: Vec<char>, c: char) -> (r: Vec<char>)
    ensures
        r@ == strip_char(s@, c),
{
    let mut a: usize = 0;
    let mut b: usize = s.len();
    assert(s@.subrange(0, s@.len() as int) =~= s@);
    while a < b && (s[a] == c || s[b - 1] == c)
        invariant
            a <= b <= s@.len(),
            strip_char(s@, c) == strip_char(s@.subrange(a as int, b as int), c),
        decreases b - a,
    {
        let ghost t = s@.subrange(a as int, b as int);
        if s[a] == c {
            assert(t.drop_first() =~= s@.subrange(a + 1, b as int));
            a = a + 1;
        } else {
            assert(t.drop_last() =~= s@.subrange(a as int, b - 1));
            b = b - 1;
        }
    }
    proof {
        if a == b {
            assert(s@.subrange(a as int, b as int) =~= Seq::<char>::empty());
        }
    }
    assert(s@.subrange(0, s@.len() as int) =~= s@);
    copy_range(s.as_slice(), a, b)
}

/// The `ID` an os-release text declares, normalised: trimmed, unquoted and
/// lowercased; `None` when no line starts with `ID=`.
pub fn os_release_id(content: &str) -> (r: Option<String>)
    ensures
        match r {
            Some(id) => os_id_from(std_lines(content@), 0) == Some(id@),
            None => os_id_from(std_lines(content@), 0) is None,
        },
{
    proof {
        reveal_strlit("ID=");
    }
    let lines = split_std_lines(content);
    let ghost ls = views(lines@);
    let prefix = chars_of("ID=");
    let mut i: usize = 0;
    while i < lines.len()
        invariant
            i <= lines@.len(),
            ls == views(lines@),
            ls == std_lines(content@),
            prefix@ == "ID="@,
            prefix@.len() == 3,
            os_id_from(ls, 0) == os_id_from(ls, i as int),
        decreases lines@.len() - i,
    {
        let c = chars_of(lines[i].as_str());
        assert(c@ == ls[i as int]);
        if starts_with_exec(c.as_slice(), prefix.as_slice()) {
            assert(prefix@.len() == 3);
            let rest = copy_range(c.as_slice(), 3, c.len());
            assert(rest@ =~= c@.skip(3));
            let t = trim_chars(rest.as_slice());
            let t1 = strip_char_exec(t, '"');
            let t2 = strip_char_exec(t1, '\'');
            let mut out: Vec<char> = Vec::new();
            let mut k: usize = 0;
            while k < t2.len()
                invariant
                    k <= t2@.len(),
                    out@ == ascii_lowered(t2@.take(k as int)),
                decreases t2@.len() - k,
            {
                let ch = t2[k];
                let lc = if 'A' <= ch && ch <= 'Z' {
                    (((ch as u32) + 32) as u8) as char
                } else {
                    ch
                };
                out.push(lc);
                k = k + 1;
                assert(out@ =~= ascii_lowered(t2@.take(k as int)));
            }
            assert(t2@.take(t2@.len() as int) =~= t2@);
            return Some(string_of(out));
        }
        i = i + 1;
    }
    None
}

/// What probing a host found: its marker files, whether `rpm-ostree` is on
/// `PATH`, and the text of `/etc/os-release` (`None` when unreadable).
#[derive(Debug, Clone)]
pub struct HostMarkers {
    pub ostree_booted: bool,
    pub ostree_sysroot: bool,
    pub rpm_ostree_on_path: bool,
    pub steamos_release: bool,
    pub nixos_marker: bool,
    pub os_release: Option<String>,
}

/// The os-release ID is one of `ids`.
pub open spec fn id_in(id: Option<Seq<char>>, ids: Seq<Seq<char>>) -> bool {
    match id {
        Some(x) => ids.contains(x),
        None => false,
    }
}

/// The evidence gathered from a host's markers.
pub open spec fn indicators_of(m: HostMarkers) -> DistroIndicators {
    let id = match m.os_release {
        Some(c) => os_id_from(std_lines(c@), 0),
        None => None,
    };
    DistroIndicators {
        ostree_booted_marker: m.ostree_booted,
        ostree_sysroot_exists: m.ostree_sysroot,
        rpm_ostree_available: m.rpm_ostree_on_path,
        steamos_marker: m.steamos_release || id_in(id, seq!["steamos"@, "holo"@]),
        nixos_marker: m.nixos_marker || id_in(id, seq!["nixos"@]),
        vanillaos_marker: id_in(id, seq!["vanilla"@, "vanilla-os"@]),
    }
}

/// The os-release `ID` a host declares, as read from `m`.
pub open spec fn declared_id(m: HostMarkers) -> Option<Seq<char>> {
    match m.os_release {
        Some(c) => os_id_from(std_lines(c@), 0),
        None => None,
    }
}

/// Without ostree markers or marker files, the os-release `ID` alone
/// decides the family: `steamos` or `holo` is SteamOS, `nixos` is NixOS,
/// `vanilla` or `vanilla-os` is Vanilla OS, and any other `ID` (or none)
/// is a classic writable distribution.
pub proof fn lemma_os_release_id_decides(m: HostMarkers)
    requires
        !m.ostree_booted,
        !m.ostree_sysroot,
        !m.steamos_release,
        !m.nixos_marker,
    ensures
        declared_id(m) == Some("steamos"@) ==> classify(indicators_of(m)) == Some(ImmutableDistro::SteamOs),
        declared_id(m) == Some("holo"@) ==> classify(indicators_of(m)) == Some(ImmutableDistro::SteamOs),
        declared_id(m) == Some("nixos"@) ==> classify(indicators_of(m)) == Some(ImmutableDistro::NixOs),
        declared_id(m) == Some("vanilla"@) ==> classify(indicators_of(m)) == Some(ImmutableDistro::VanillaOs),
        declared_id(m) == Some("vanilla-os"@) ==> classify(indicators_of(m)) == Some(ImmutableDistro::VanillaOs),
        classify(indicators_of(m)) is None <==> (declared_id(m) != Some("steamos"@) && declared_id(m) != Some(
            "holo"@,
        ) && declared_id(m) != Some("nixos"@) && declared_id(m) != Some("vanilla"@) && declared_id(m) != Some(
            "vanilla-os"@,
        )),
{
    reveal_strlit("steamos");
    reveal_strlit("holo");
    reveal_strlit("nixos");
    reveal_strlit("vanilla");
    reveal_strlit("vanilla-os");
    let ids2 = seq!["steamos"@, "holo"@];
    let idn = seq!["nixos"@];
    let idv = seq!["vanilla"@, "vanilla-os"@];
    assert(ids2[0] == "steamos"@ && ids2[1] == "holo"@);
    assert(idn[0] == "nixos"@);
    assert(idv[0] == "vanilla"@ && idv[1] == "vanilla-os"@);
    match declared_id(m) {
        Some(x) => {
            if ids2.contains(x) {
                let k = choose|k: int| 0 <= k < ids2.len() && ids2[k] == x;
            }
            if idn.contains(x) {
                let k = choose|k: int| 0 <= k < idn.len() && idn[k] == x;
            }
            if idv.contains(x) {
                let k = choose|k: int| 0 <= k < idv.len() && idv[k] == x;
            }
            if x == "vanilla"@ {
                assert(x[0] == 'v' && x.len() == 7);
                assert(idv[0] == x);
            }
            if x == "vanilla-os"@ {
                assert(idv[1] == x);
            }
            if x == "steamos"@ {
                assert(ids2[0] == x);
            }
            if x == "holo"@ {
                assert(ids2[1] == x);
            }
            if x == "nixos"@ {
                assert(idn[0] == x);
            }
        },
        None => {},
    }
}

/// A SteamOS release file makes a host without ostree markers SteamOS, a
/// NixOS marker file makes one NixOS unless it is SteamOS, and an ostree
/// deployment outranks every other sign: rpm-ostree when its
/// tool is on `PATH`, bare ostree otherwise.
pub proof fn lemma_marker_priority(m: HostMarkers)
    ensures
        (m.ostree_booted || m.ostree_sysroot) ==> classify(indicators_of(m)) == (if m.rpm_ostree_on_path {
            Some(ImmutableDistro::RpmOstree)
        } else {
            Some(ImmutableDistro::Ostree)
        }),
        !m.ostree_booted && !m.ostree_sysroot && m.steamos_release ==> classify(indicators_of(m)) == Some(
            ImmutableDistro::SteamOs,
        ),
        !m.ostree_booted && !m.ostree_sysroot && !m.steamos_release && declared_id(m) != Some("steamos"@)
            && declared_id(m) != Some("holo"@) && m.nixos_marker ==> classify(indicators_of(m)) == Some(
            ImmutableDistro::NixOs,
        ),
{
    let ids2 = seq!["steamos"@, "holo"@];
    if let Some(x) = declared_id(m) {
        if ids2.contains(x) {
            let k = choose|k: int| 0 <= k < ids2.len() && ids2[k] == x;
        }
    }
}

fn id_is_one_of(id: &Option<String>, a: &str, b: Option<&str>) -> (r: bool)
    ensures
        r == match id {
            Some(x) => x@ == a@ || (b matches Some(y) && x@ == y@),
            None => false,
        },
{
    match id {
        Some(x) => {
            let xc = chars_of(x.as_str());
            if text_is(xc.as_slice(), a) {
                return true;
            }
            match b {
                Some(y) => text_is(xc.as_slice(), y),
                None => false,
            }
        },
        None => false,
    }
}

/// The immutable family of a host: the override tag when it is set and not
/// empty (an unknown tag means none), otherwise the classification of its
/// markers.
pub fn probe_immutable_distro(override_tag: Option<&str>, markers: &HostMarkers) -> (r: Option<ImmutableDistro>)
    ensures
        r == match override_tag {
            Some(t) => if t@.len() > 0 {
                distro_of_tag(t@)
            } else {
                classify(indicators_of(*markers))
            },
            None => classify(indicators_of(*markers)),
        },
{
    if let Some(t) = override_tag {
        if t.unicode_len() > 0 {
            return distro_from_tag(t);
        }
    }
    let id = match &markers.os_release {
        Some(c) => os_release_id(c.as_str()),
        None => None,
    };
    let ghost idv: Option<Seq<char>> = match &id {
        Some(x) => Some(x@),
        None => None,
    };
    let steam = id_is_one_of(&id, "steamos", Some("holo"));
    let nix = id_is_one_of(&id, "nixos", None);
    let vanilla = id_is_one_of(&id, "vanilla", Some("vanilla-os"));
    proof {
        reveal_strlit("steamos");
        reveal_strlit("holo");
        reveal_strlit("nixos");
        reveal_strlit("vanilla");
        reveal_strlit("vanilla-os");
        assert(steam == id_in(idv, seq!["steamos"@, "holo"@])) by {
            if let Some(x) = idv {
                if seq!["steamos"@, "holo"@].contains(x) {
                    let k = choose|k: int| 0 <= k < 2 && seq!["steamos"@, "holo"@][k] == x;
                }
            }
        }
        assert(nix == id_in(idv, seq!["nixos"@])) by {
            if let Some(x) = idv {
                if seq!["nixos"@].contains(x) {
                    let k = choose|k: int| 0 <= k < 1 && seq!["nixos"@][k] == x;
                }
                if x == "nixos"@ {
                    assert(seq!["nixos"@][0] == x);
                }
            }
        }
        assert(vanilla == id_in(idv, seq!["vanilla"@, "vanilla-os"@])) by {
            if let Some(x) = idv {
                if seq!["vanilla"@, "vanilla-os"@].contains(x) {
                    let k = choose|k: int| 0 <= k < 2 && seq!["vanilla"@, "vanilla-os"@][k] == x;
                }
            }
        }
    }
    let ind = DistroIndicators {
        ostree_booted_marker: markers.ostree_booted,
        ostree_sysroot_exists: markers.ostree_sysroot,
        rpm_ostree_available: markers.rpm_ostree_on_path,
        steamos_marker: markers.steamos_release || steam,
        nixos_marker: markers.nixos_marker || nix,
        vanillaos_marker: vanilla,
    };
    detect_immutable_distro(&ind)
}

/// Refuse a write on an immutable host with `ImmutableDistroDetected`
/// naming its family.
pub fn enforce_writable_distro(distro: Option<ImmutableDistro>) -> (r: Result<(), BootControlError>)
    ensures
        match distro {
            None => r is Ok,
            Some(d) => r matches Err(e) && e matches BootControlError::ImmutableDistroDetected {
                distro: t,
            } && t@ == distro_tag(d),
        },
{
    match distro {
        None => Ok(()),
        Some(d) => Err(BootControlError::ImmutableDistroDetected { distro: String::from_str(d.tag()) }),
    }
}

/// Where a kernel-parameter change goes on a host.
#[derive(Debug, Clone, Copy, PartialEq, Eq, Structural)]
pub enum ParamRoute {
    /// `rpm-ostree kargs` owns the command line.
    RpmOstreeKargs,
    /// `/etc/kernel/cmdline` is edited in place.
    KernelCmdlineFile,
}

/// Route a kernel-parameter change: rpm-ostree hosts delegate to
/// `rpm-ostree kargs`, other immutable hosts refuse (naming their family),
/// mutable hosts edit `/etc/kernel/cmdline`.
pub fn kernel_param_route(distro: Option<ImmutableDistro>) -> (r: Result<ParamRoute, BootControlError>)
    ensures
        match distro {
            None => r == Ok::<ParamRoute, BootControlError>(ParamRoute::KernelCmdlineFile),
            Some(ImmutableDistro::RpmOstree) => r == Ok::<ParamRoute, BootControlError>(ParamRoute::RpmOstreeKargs),
            Some(d) => r matches Err(e) && e matches BootControlError::ImmutableDistroDetected {
                distro: t,
            } && t@ == distro_tag(d),
        },
{
    match distro {
        None => Ok(ParamRoute::KernelCmdlineFile),
        Some(ImmutableDistro::RpmOstree) => Ok(ParamRoute::RpmOstreeKargs),
        Some(d) => Err(BootControlError::ImmutableDistroDetected { distro: String::from_str(d.tag()) }),
    }
}

} // verus!
