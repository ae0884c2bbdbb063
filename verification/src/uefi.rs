//! UEFI variables as efivarfs exposes them (`/sys/firmware/efi/efivars/`),
//! the `Boot####` load options, `BootOrder` and `BootNext`.
//!
//! Every variable is a file named `<Name>-<vendor-guid>` holding a 4-byte
//! attribute header followed by the value. Reading the files is the
//! daemon's I/O; naming them, stripping the header and decoding the values
//! is done here.

use vstd::prelude::*;
use vstd::string::StringExecFns;
use crate::error::BootControlError;
use crate::text::{chars_of, chars_eq, copy_range, push_all, string_of};

verus! {

/// The vendor GUID of the EFI global variable namespace.
pub const EFI_GLOBAL_VARIABLE_GUID: &'static str = "8be4df61-93ca-11d2-aa0d-00e098032b8c";

/// Production efivarfs mount point.
pub const EFIVARS_DIR: &'static str = "/sys/firmware/efi/efivars";

/// Reader of efivarfs. Cheap to construct: it holds only the directory to
/// read from.
#[derive(Debug, Clone)]
pub struct EfivarFsReader {
    /// Override directory; `None` means the production mount, or the
    /// `BOOTCONTROL_EFIVARS_DIR` override when set.
    pub root: Option<String>,
}

impl Default for EfivarFsReader {
    fn default() -> (r: Self)
        ensures
            r.root is None,
    {
        EfivarFsReader { root: None }
    }
}

impl EfivarFsReader {
    /// A reader of the production efivarfs mount.
    pub fn new() -> (r: Self)
        ensures
            r.root is None,
    {
        EfivarFsReader { root: None }
    }

    /// A reader pinned to a specific directory.
    pub fn with_root(root: String) -> (r: Self)
        ensures
            r.root == Some(root),
    {
        EfivarFsReader { root: Some(root) }
    }

    /// The directory to read, in priority order: the explicit root, the
    /// `BOOTCONTROL_EFIVARS_DIR` override (`env_override`, when set and not
    /// empty), the production mount.
    pub fn root_dir(&self, env_override: Option<&str>) -> (d: String)
        ensures
            d@ == match self.root {
                Some(r) => r@,
                None => match env_override {
                    Some(e) => if e@.len() > 0 {
                        e@
                    } else {
                        EFIVARS_DIR@
                    },
                    None => EFIVARS_DIR@,
                },
            },
    {
        match &self.root {
            Some(r) => r.clone(),
            None => match env_override {
                Some(e) => if e.unicode_len() > 0 {
                    String::from_str(e)
                } else {
                    String::from_str(EFIVARS_DIR)
                },
                None => String::from_str(EFIVARS_DIR),
            },
        }
    }
}

/// The file name of the global variable `name`.
pub fn global_var_file(name: &str) -> (f: String)
    ensures
        f@ == name@ + "-"@ + EFI_GLOBAL_VARIABLE_GUID@,
{
    let mut f = String::from_str(name);
    f.append("-");
    f.append(EFI_GLOBAL_VARIABLE_GUID);
    f
}

/// The name of the global variable a file holds: its name without the
/// `-<global GUID>` suffix; `None` for variables of other vendors.
pub open spec fn global_name(file_name: Seq<char>) -> Option<Seq<char>> {
    let suffix = "-"@ + EFI_GLOBAL_VARIABLE_GUID@;
    if file_name.len() >= suffix.len() && file_name.subrange(
        file_name.len() - suffix.len(),
        file_name.len() as int,
    ) == suffix {
        Some(file_name.subrange(0, file_name.len() - suffix.len()))
    } else {
        None
    }
}

/// The name of the global variable stored in the efivarfs file `file_name`.
pub fn global_var_name(file_name: &str) -> (r: Option<String>)
    ensures
        match r {
            Some(n) => global_name(file_name@) == Some(n@),
            None => global_name(file_name@) is None,
        },
{
    let f = chars_of(file_name);
    let mut sfx = chars_of("-");
    let g = chars_of(EFI_GLOBAL_VARIABLE_GUID);
    push_all(&mut sfx, g.as_slice());
    if f.len() < sfx.len() {
        return None;
    }
    let tail = copy_range(f.as_slice(), f.len() - sfx.len(), f.len());
    if chars_eq(tail.as_slice(), sfx.as_slice()) {
        Some(string_of(copy_range(f.as_slice(), 0, f.len() - sfx.len())))
    } else {
        None
    }
}

/// The value of a variable read from efivarfs: the bytes after the 4-byte
/// attribute header. A shorter file is refused with `EspScanFailed`.
pub fn strip_attribute_header(path: &str, raw: &[u8]) -> (r: Result<Vec<u8>, BootControlError>)
    ensures
        raw@.len() >= 4 <==> r is Ok,
        r matches Ok(v) ==> v@ == raw@.skip(4),
        r matches Err(e) ==> e is EspScanFailed,
{
    if raw.len() < 4 {
        let mut reason = String::from_str(path);
        reason.append(": efivarfs entry shorter than 4-byte attribute header");
        return Err(BootControlError::EspScanFailed { reason });
    }
    let mut v: Vec<u8> = Vec::new();
    let mut i: usize = 4;
    while i < raw.len()
        invariant
            4 <= i <= raw@.len(),
            v@ == raw@.subrange(4, i as int),
        decreases raw@.len() - i,
    {
        v.push(raw[i]);
        i = i + 1;
        assert(v@ =~= raw@.subrange(4, i as int));
    }
    assert(raw@.skip(4) =~= raw@.subrange(4, raw@.len() as int));
    Ok(v)
}

// ── Boot#### names ────────────────────────────────────────────────────────

/// The value of a hexadecimal digit (either case), or -1.
pub open spec fn hex_value(c: char) -> int {
    if '0' <= c && c <= '9' {
        c as int - '0' as int
    } else if 'a' <= c && c <= 'f' {
        c as int - 'a' as int + 10
    } else if 'A' <= c && c <= 'F' {
        c as int - 'A' as int + 10
    } else {
        -1
    }
}

/// The value of a string of hexadecimal digits.
pub open spec fn hex_number(s: Seq<char>) -> int
    decreases s.len(),
{
    if s.len() == 0 {
        0
    } else {
        hex_number(s.drop_last()) * 16 + hex_value(s.last())
    }
}

/// Every character is a hexadecimal digit.
pub open spec fn all_hex(s: Seq<char>) -> bool {
    forall|i: int| 0 <= i < s.len() ==> hex_value(#[trigger] s[i]) >= 0
}

/// What `u16::from_str_radix(s, 16)` gives a text of at most four
/// characters: an optional `+`, then one or more hexadecimal digits.
pub open spec fn short_hex(s: Seq<char>) -> Option<int> {
    let d = if s.len() > 0 && s[0] == '+' {
        s.drop_first()
    } else {
        s
    };
    if d.len() > 0 && all_hex(d) {
        Some(hex_number(d))
    } else {
        None
    }
}

/// The index of a per-entry `Boot####` variable: `Boot` followed by four
/// characters that read as a hexadecimal `u16`; `None` for every other
/// name (`BootOrder`, `BootNext`, `BootCurrent`, `Boot0000Backup`, …).
pub open spec fn boot_index(name: Seq<char>) -> Option<int> {
    if name.len() == 8 && name.take(4) == "Boot"@ && name != "BootNext"@ {
        short_hex(name.skip(4))
    } else {
        None
    }
}

fn hex_val(c: char) -> (r: Option<u32>)
    ensures
        match r {
            Some(v) => hex_value(c) == v && v < 16,
            None => hex_value(c) == -1,
        },
{
    if '0' <= c && c <= '9' {
        Some((c as u32) - 48)
    } else if 'a' <= c && c <= 'f' {
        Some((c as u32) - 97 + 10)
    } else if 'A' <= c && c <= 'F' {
        Some((c as u32) - 65 + 10)
    } else {
        None
    }
}

proof fn lemma_hex_number_bound(s: Seq<char>)
    requires
        all_hex(s),
    ensures
        0 <= hex_number(s) < pow16(s.len() as nat),
    decreases s.len(),
{
    if s.len() > 0 {
        assert(all_hex(s.drop_last())) by {
            assert forall|i: int| 0 <= i < s.drop_last().len() implies hex_value(#[trigger] s.drop_last()[i]) >= 0 by {
                assert(s.drop_last()[i] == s[i]);
            }
        }
        lemma_hex_number_bound(s.drop_last());
        assert(hex_value(s.last()) >= 0);
        assert(hex_value(s.last()) < 16);
    }
}

/// Sixteen to the power `n`.
pub open spec fn pow16(n: nat) -> int
    decreases n,
{
    if n == 0 {
        1
    } else {
        16 * pow16((n - 1) as nat)
    }
}

/// The index of the `Boot####` variable `name`, if it is one.
pub fn boot_entry_index(name: &str) -> (r: Option<u16>)
    ensures
        match r {
            Some(i) => boot_index(name@) == Some(i as int),
            None => boot_index(name@) is None,
        },
{
    proof {
        reveal_strlit("Boot");
        reveal_strlit("BootNext");
    }
    let c = chars_of(name);
    if c.len() != 8 || !(c[0] == 'B' && c[1] == 'o' && c[2] == 'o' && c[3] == 't') {
        proof {
            if c@.len() == 8 && c@.take(4) == "Boot"@ {
                assert(c@.take(4)[0] == c@[0]);
                assert(c@.take(4)[1] == c@[1]);
                assert(c@.take(4)[2] == c@[2]);
                assert(c@.take(4)[3] == c@[3]);
            }
        }
        return None;
    }
    assert(c@.take(4) =~= "Boot"@);
    let next = chars_of("BootNext");
    if chars_eq(c.as_slice(), next.as_slice()) {
        return None;
    }
    let tail = copy_range(c.as_slice(), 4, 8);
    assert(tail@ =~= name@.skip(4));
    let digits = if tail[0] == '+' {
        copy_range(tail.as_slice(), 1, 4)
    } else {
        tail
    };
    assert(digits@ =~= (if name@.skip(4)[0] == '+' { name@.skip(4).drop_first() } else { name@.skip(4) }));
    match hex_digits_value(digits.as_slice()) {
        Some(v) => {
            proof {
                lemma_pow16_small();
            }
            Some(v as u16)
        },
        None => None,
    }
}

proof fn lemma_pow16_small()
    ensures
        pow16(0) == 1,
        pow16(1) == 16,
        pow16(2) == 256,
        pow16(3) == 4096,
        pow16(4) == 65536,
{
    reveal_with_fuel(pow16, 5);
}

/// The value of a non-empty string of at most four hexadecimal digits.
fn hex_digits_value(d: &[char]) -> (r: Option<u32>)
    requires
        d@.len() <= 4,
    ensures
        match r {
            Some(v) => d@.len() > 0 && all_hex(d@) && v == hex_number(d@) && v < pow16(d@.len() as nat),
            None => !(d@.len() > 0 && all_hex(d@)),
        },
{
    if d.len() == 0 {
        return None;
    }
    proof {
        lemma_pow16_small();
    }
    let mut acc: u32 = 0;
    let mut i: usize = 0;
    while i < d.len()
        invariant
            i <= d@.len() <= 4,
            all_hex(d@.take(i as int)),
            acc == hex_number(d@.take(i as int)),
            acc < pow16(i as nat),
            pow16(0) == 1,
            pow16(1) == 16,
            pow16(2) == 256,
            pow16(3) == 4096,
            pow16(4) == 65536,
        decreases d@.len() - i,
    {
        let ghost t = d@.take(i + 1);
        assert(t.drop_last() =~= d@.take(i as int));
        assert(t.last() == d@[i as int]);
        match hex_val(d[i]) {
            None => {
                assert(hex_value(d@[i as int]) < 0);
                return None;
            },
            Some(v) => {
                assert(pow16((i + 1) as nat) == 16 * pow16(i as nat));
                acc = acc * 16 + v;
                assert(all_hex(t)) by {
                    assert forall|k: int| 0 <= k < t.len() implies hex_value(#[trigger] t[k]) >= 0 by {
                        if k < t.len() - 1 {
                            assert(t[k] == d@.take(i as int)[k]);
                        }
                    }
                }
            },
        }
        i = i + 1;
    }
    assert(d@.take(d@.len() as int) =~= d@);
    Some(acc)
}

// ── Load options ──────────────────────────────────────────────────────────

/// The little-endian value of two bytes.
pub open spec fn le16(lo: u8, hi: u8) -> int {
    lo as int + 256 * hi as int
}

/// The UTF-16 code units of a load option's description: the little-endian
/// units from byte `i` up to the first zero unit (or to the last complete
/// unit of the payload).
pub open spec fn description_units(p: Seq<u8>, i: int) -> Seq<u16>
    decreases p.len() - i,
{
    if i < 0 || i + 2 > p.len() {
        Seq::empty()
    } else if le16(p[i], p[i + 1]) == 0 {
        Seq::empty()
    } else {
        seq![le16(p[i], p[i + 1]) as u16] + description_units(p, i + 2)
    }
}

/// The text `String::from_utf16_lossy` decodes from UTF-16 code units
/// (unpaired surrogates become U+FFFD).
pub uninterp spec fn utf16_lossy(units: Seq<u16>) -> Seq<char>;

/// Calls `String::from_utf16_lossy`; the result is the text named by
/// [`utf16_lossy`].
#[verifier::external_body]
fn decode_utf16_lossy(units: &[u16]) -> (s: String)
    ensures
        s@ == utf16_lossy(units@),
{
    String::from_utf16_lossy(units)
}

/// One `Boot####` load option.
#[derive(Debug, Clone, PartialEq, Eq)]
pub struct EfiBootEntry {
    /// The `####` of the variable name.
    pub index: u16,
    /// `LOAD_OPTION_ACTIVE` (attribute bit 0).
    pub active: bool,
    /// `LOAD_OPTION_HIDDEN` (attribute bit 3).
    pub hidden: bool,
    /// The description shown in the firmware boot menu.
    pub description: String,
}

/// The load option `Boot<index>` with value `p` holds: its attributes in
/// the first four bytes (little-endian), a two-byte file-path-list length,
/// then the NUL-terminated UTF-16LE description. `None` when the value is
/// shorter than that six-byte header.
pub open spec fn load_option_fits(p: Seq<u8>) -> bool {
    p.len() >= 6
}

/// `e` is the entry decoded from the value `p` of `Boot<index>`.
pub open spec fn decodes_load_option(e: EfiBootEntry, index: u16, p: Seq<u8>) -> bool {
    &&& e.index == index
    &&& e.active == (p[0] % 2 == 1)
    &&& e.hidden == (p[0] / 8 % 2 == 1)
    &&& e.description@ == utf16_lossy(description_units(p, 6))
}

/// The flags of a decoded load option are single attribute bits, each
/// independent of the other: `active` is bit 0 (`LOAD_OPTION_ACTIVE`,
/// `0x01`) and `hidden` is bit 3 (`LOAD_OPTION_HIDDEN`, `0x08`). So an
/// option with attributes `0` is neither active nor hidden.
pub proof fn lemma_load_option_flags(e: EfiBootEntry, index: u16, p: Seq<u8>)
    requires
        load_option_fits(p),
        decodes_load_option(e, index, p),
    ensures
        e.active == (p[0] & 0x01u8 == 0x01u8),
        e.hidden == (p[0] & 0x08u8 == 0x08u8),
        p[0] == 0u8 ==> !e.active && !e.hidden,
        p[0] & 0x09u8 == 0x08u8 ==> !e.active && e.hidden,
{
    let b = p[0];
    assert((b % 2 == 1) == (b & 0x01u8 == 0x01u8)) by (bit_vector);
    assert((b / 8 % 2 == 1) == (b & 0x08u8 == 0x08u8)) by (bit_vector);
    assert(b & 0x09u8 == 0x08u8 ==> (b & 0x01u8 != 0x01u8 && b & 0x08u8 == 0x08u8)) by (bit_vector);
    assert(b == 0u8 ==> (b & 0x01u8 != 0x01u8 && b & 0x08u8 != 0x08u8)) by (bit_vector);
}

/// Decode the value of `Boot<index>`. A value shorter than the load-option
/// header is refused with `MalformedValue`.
pub fn parse_boot_entry(index: u16, payload: &[u8]) -> (r: Result<EfiBootEntry, BootControlError>)
    ensures
        load_option_fits(payload@) <==> r is Ok,
        r matches Ok(e) ==> decodes_load_option(e, index, payload@),
        r matches Err(e) ==> e is MalformedValue,
{
    if payload.len() < 6 {
        return Err(BootControlError::MalformedValue {
            key: String::from_str("Boot####"),
            reason: String::from_str("load option shorter than its 6-byte header"),
        });
    }
    let mut units: Vec<u16> = Vec::new();
    let mut i: usize = 6;
    let mut done = false;
    while payload.len() - i >= 2 && !done
        invariant
            6 <= i <= payload@.len(),
            i % 2 == 0,
            !done ==> units@ + description_units(payload@, i as int) == description_units(payload@, 6),
            done ==> units@ == description_units(payload@, 6),
        decreases payload@.len() - i, if done { 0int } else { 1int },
    {
        let u: u16 = (payload[i] as u16) + 256 * (payload[i + 1] as u16);
        if u == 0 {
            done = true;
            assert(units@ =~= units@ + Seq::<u16>::empty());
        } else {
            let ghost before = units@;
            units.push(u);
            assert(units@ + description_units(payload@, i + 2) =~= before + description_units(payload@, i as int));
            i = i + 2;
        }
    }
    if !done {
        assert(description_units(payload@, i as int) =~= Seq::<u16>::empty());
        assert(units@ =~= units@ + Seq::<u16>::empty());
    }
    let b0 = payload[0];
    Ok(EfiBootEntry {
        index,
        active: b0 % 2 == 1,
        hidden: b0 / 8 % 2 == 1,
        description: decode_utf16_lossy(units.as_slice()),
    })
}

// ── BootOrder / BootNext ──────────────────────────────────────────────────

/// The bytes of a list of `u16` values, each little-endian.
pub open spec fn le16_bytes(v: Seq<u16>) -> Seq<u8> {
    Seq::new(
        2 * v.len(),
        |i: int|
            if i % 2 == 0 {
                (v[i / 2] % 256) as u8
            } else {
                (v[i / 2] / 256) as u8
            },
    )
}

/// The `u16` values of bytes read in little-endian pairs.
pub open spec fn le16_values(p: Seq<u8>) -> Seq<u16> {
    Seq::new(p.len() / 2, |i: int| le16(p[2 * i], p[2 * i + 1]) as u16)
}

/// Encode a `BootOrder` value: each index as two little-endian bytes.
pub fn encode_boot_order(order: &[u16]) -> (p: Vec<u8>)
    requires
        order@.len() * 2 <= usize::MAX,
    ensures
        p@ == le16_bytes(order@),
{
    let mut p: Vec<u8> = Vec::new();
    let mut i: usize = 0;
    while i < order.len()
        invariant
            i <= order@.len(),
            order@.len() * 2 <= usize::MAX,
            p@.len() == 2 * i,
            forall|k: int| 0 <= k < 2 * i ==> p@[k] == #[trigger] le16_bytes(order@)[k],
        decreases order@.len() - i,
    {
        let v = order[i];
        p.push((v % 256) as u8);
        p.push((v / 256) as u8);
        proof {
            assert forall|k: int| 0 <= k < 2 * (i + 1) implies p@[k] == #[trigger] le16_bytes(order@)[k] by {
                if k >= 2 * i {
                    assert(k / 2 == i as int);
                }
            }
        }
        i = i + 1;
    }
    assert(p@ =~= le16_bytes(order@));
    p
}

/// Decode a `BootOrder` value. A value of odd length is refused with
/// `MalformedValue`.
pub fn parse_boot_order(payload: &[u8]) -> (r: Result<Vec<u16>, BootControlError>)
    ensures
        payload@.len() % 2 == 0 <==> r is Ok,
        r matches Ok(v) ==> v@ == le16_values(payload@),
        r matches Err(e) ==> e is MalformedValue,
{
    if payload.len() % 2 != 0 {
        return Err(BootControlError::MalformedValue {
            key: String::from_str("BootOrder"),
            reason: String::from_str("payload length is not a multiple of 2"),
        });
    }
    let mut v: Vec<u16> = Vec::new();
    let mut i: usize = 0;
    while i < payload.len() / 2
        invariant
            i <= payload@.len() / 2,
            payload@.len() % 2 == 0,
            v@.len() == i,
            forall|k: int| 0 <= k < i ==> v@[k] == #[trigger] le16_values(payload@)[k],
        decreases payload@.len() / 2 - i,
    {
        let u: u16 = (payload[2 * i] as u16) + 256 * (payload[2 * i + 1] as u16);
        v.push(u);
        i = i + 1;
    }
    assert(v@ =~= le16_values(payload@));
    Ok(v)
}

/// Decoding what was encoded gives back the boot order.
pub proof fn lemma_boot_order_roundtrip(order: Seq<u16>)
    ensures
        le16_values(le16_bytes(order)) == order,
{
    let b = le16_bytes(order);
    assert forall|i: int| 0 <= i < order.len() implies le16_values(b)[i] == order[i] by {
        assert((2 * i) / 2 == i);
        assert((2 * i + 1) / 2 == i);
        assert((2 * i) % 2 == 0);
        assert((2 * i + 1) % 2 == 1);
    }
    assert(le16_values(b) =~= order);
}

/// Decode a variable holding a single `u16` (such as `BootNext`); any other
/// length is refused with `MalformedValue`.
pub fn parse_single_u16_var(name: &str, payload: &[u8]) -> (r: Result<u16, BootControlError>)
    ensures
        payload@.len() == 2 <==> r is Ok,
        r matches Ok(v) ==> v == le16(payload@[0], payload@[1]),
        r matches Err(e) ==> (e matches BootControlError::MalformedValue { key, reason } && key@ == name@),
{
    if payload.len() != 2 {
        return Err(BootControlError::MalformedValue {
            key: String::from_str(name),
            reason: String::from_str("expected exactly 2 bytes"),
        });
    }
    Ok((payload[0] as u16) + 256 * (payload[1] as u16))
}

/// `BootNext` as the D-Bus method reports it: the index when the variable
/// could be read and decoded, `-1` when reading it failed with
/// `EspScanFailed` (the variable is absent: the next boot follows
/// `BootOrder`), and any other failure as it is.
pub fn boot_next_value(read: Result<Vec<u8>, BootControlError>) -> (r: Result<i32, BootControlError>)
    ensures
        match read {
            Ok(p) => match r {
                Ok(v) => p@.len() == 2 && v == le16(p@[0], p@[1]),
                Err(e) => p@.len() != 2 && e is MalformedValue,
            },
            Err(e) => if e is EspScanFailed {
                r == Ok::<i32, BootControlError>(-1i32)
            } else {
                r == Err::<i32, BootControlError>(e)
            },
        },
{
    match read {
        Ok(p) => match parse_single_u16_var("BootNext", p.as_slice()) {
            Ok(v) => Ok(v as i32),
            Err(e) => Err(e),
        },
        Err(BootControlError::EspScanFailed { reason }) => Ok(-1),
        Err(e) => Err(e),
    }
}

/// `new_order` may replace `current`: it repeats no index and holds exactly
/// the indices of `current` (adding or removing entries is a separate
/// operation).
pub open spec fn valid_new_order(current: Seq<u16>, new_order: Seq<u16>) -> bool {
    &&& forall|i: int, j: int| 0 <= i < j < new_order.len() ==> new_order[i] != new_order[j]
    &&& forall|x: u16| new_order.contains(x) <==> current.contains(x)
}

fn contains_u16(v: &[u16], x: u16) -> (r: bool)
    ensures
        r == v@.contains(x),
{
    let mut i: usize = 0;
    while i < v.len()
        invariant
            i <= v@.len(),
            forall|k: int| 0 <= k < i ==> v@[k] != x,
        decreases v@.len() - i,
    {
        if v[i] == x {
            return true;
        }
        i = i + 1;
    }
    false
}

/// Check a new `BootOrder` against the current one: refused with
/// `MalformedValue` when it repeats an index or does not hold exactly the
/// current indices.
pub fn validate_boot_order(current: &[u16], new_order: &[u16]) -> (r: Result<(), BootControlError>)
    ensures
        r is Ok <==> valid_new_order(current@, new_order@),
        r matches Err(e) ==> e is MalformedValue,
{
    let mut ok = true;
    let mut i: usize = 0;
    while i < new_order.len()
        invariant
            i <= new_order@.len(),
            ok == ((forall|a: int, b: int| 0 <= a < b < i ==> new_order@[a] != new_order@[b])
                && forall|a: int| 0 <= a < i ==> current@.contains(#[trigger] new_order@[a])),
        decreases new_order@.len() - i,
    {
        let x = new_order[i];
        let mut j: usize = 0;
        let mut dup = false;
        while j < i
            invariant
                j <= i < new_order@.len(),
                x == new_order@[i as int],
                dup == exists|a: int| 0 <= a < j && new_order@[a] == x,
            decreases i - j,
        {
            if new_order[j] == x {
                dup = true;
            }
            j = j + 1;
        }
        let known = contains_u16(current, x);
        if dup || !known {
            ok = false;
        }
        i = i + 1;
    }
    let mut k: usize = 0;
    let mut covered = true;
    while k < current.len()
        invariant
            k <= current@.len(),
            covered == forall|a: int| 0 <= a < k ==> new_order@.contains(#[trigger] current@[a]),
        decreases current@.len() - k,
    {
        if !contains_u16(new_order, current[k]) {
            covered = false;
        }
        k = k + 1;
    }
    proof {
        if ok && covered {
            assert forall|x: u16| new_order@.contains(x) <==> current@.contains(x) by {
                if new_order@.contains(x) {
                    let a = choose|a: int| 0 <= a < new_order@.len() && new_order@[a] == x;
                    assert(current@.contains(new_order@[a]));
                }
                if current@.contains(x) {
                    let a = choose|a: int| 0 <= a < current@.len() && current@[a] == x;
                    assert(new_order@.contains(current@[a]));
                }
            }
        }
        if valid_new_order(current@, new_order@) {
            assert forall|a: int| 0 <= a < new_order@.len() implies current@.contains(#[trigger] new_order@[a]) by {
                assert(new_order@.contains(new_order@[a]));
            }
            assert forall|a: int| 0 <= a < current@.len() implies new_order@.contains(#[trigger] current@[a]) by {
                assert(current@.contains(current@[a]));
            }
        }
    }
    if ok && covered {
        Ok(())
    } else {
        Err(BootControlError::MalformedValue {
            key: String::from_str("BootOrder"),
            reason: String::from_str("new order must be a permutation of the current entries"),
        })
    }
}

/// Check a `BootNext` target: it must appear in the current `BootOrder`,
/// or the change is refused with `KeyNotFound`.
pub fn validate_boot_next(order: &[u16], index: u16) -> (r: Result<(), BootControlError>)
    ensures
        r is Ok <==> order@.contains(index),
        r matches Err(e) ==> e is KeyNotFound,
{
    if contains_u16(order, index) {
        Ok(())
    } else {
        Err(BootControlError::KeyNotFound { key: String::from_str("BootNext") })
    }
}

/// The new `BootOrder` value for `new_order`, given the bytes of the
/// current one: the current value must decode (an odd length is
/// `MalformedValue`), and `new_order` must hold exactly its entries, each
/// once (else `MalformedValue`); then the result is `new_order` encoded.
pub fn boot_order_update(current: &[u8], new_order: &[u16]) -> (r: Result<Vec<u8>, BootControlError>)
    requires
        new_order@.len() * 2 <= usize::MAX,
    ensures
        current@.len() % 2 != 0 ==> (r matches Err(e) && e is MalformedValue),
        current@.len() % 2 == 0 && !valid_new_order(le16_values(current@), new_order@) ==> (r matches Err(e)
            && e is MalformedValue),
        current@.len() % 2 == 0 && valid_new_order(le16_values(current@), new_order@) ==> (r matches Ok(p)
            && p@ == le16_bytes(new_order@)),
{
    let order = parse_boot_order(current)?;
    validate_boot_order(order.as_slice(), new_order)?;
    Ok(encode_boot_order(new_order))
}

/// The new `BootNext` value naming `index`, given the bytes of the current
/// `BootOrder`: that value must decode (an odd length is `MalformedValue`)
/// and hold `index` (else `KeyNotFound`); then the result is `index`
/// encoded.
pub fn boot_next_update(current_order: &[u8], index: u16) -> (r: Result<Vec<u8>, BootControlError>)
    ensures
        current_order@.len() % 2 != 0 ==> (r matches Err(e) && e is MalformedValue),
        current_order@.len() % 2 == 0 && !le16_values(current_order@).contains(index) ==> (r matches Err(e)
            && e is KeyNotFound),
        current_order@.len() % 2 == 0 && le16_values(current_order@).contains(index) ==> (r matches Ok(p)
            && p@ == le16_bytes(seq![index])),
{
    let order = parse_boot_order(current_order)?;
    validate_boot_next(order.as_slice(), index)?;
    let one = [index];
    assert(one@ =~= seq![index]);
    Ok(encode_boot_order(&one))
}

/// The bytes of an efivarfs file: the attributes (little-endian) followed
/// by the value.
pub fn with_attribute_header(attributes: u32, value: &[u8]) -> (f: Vec<u8>)
    ensures
        f@.len() == value@.len() + 4,
        f@.skip(4) == value@,
        f@[0] as int + 256 * f@[1] as int + 65536 * f@[2] as int + 16777216 * f@[3] as int == attributes as int,
{
    let mut f: Vec<u8> = Vec::new();
    f.push((attributes % 256) as u8);
    f.push((attributes / 256 % 256) as u8);
    f.push((attributes / 65536 % 256) as u8);
    f.push((attributes / 16777216) as u8);
    let mut i: usize = 0;
    while i < value.len()
        invariant
            i <= value@.len(),
            f@.len() == 4 + i,
            f@.subrange(4, f@.len() as int) == value@.take(i as int),
            f@[0] as int + 256 * f@[1] as int + 65536 * f@[2] as int + 16777216 * f@[3] as int == attributes as int,
        decreases value@.len() - i,
    {
        f.push(value[i]);
        i = i + 1;
        assert(f@.subrange(4, f@.len() as int) =~= value@.take(i as int));
    }
    assert(value@.take(value@.len() as int) =~= value@);
    assert(f@.skip(4) =~= f@.subrange(4, f@.len() as int));
    f
}

// ── Listing Boot#### entries ──────────────────────────────────────────────

/// The positions, in order, of the names among `names[..n]` that are
/// `Boot####` variables.
pub open spec fn boot_positions(names: Seq<String>, n: int) -> Seq<int>
    decreases n,
{
    if n <= 0 {
        Seq::empty()
    } else if boot_index(names[n - 1]@) is Some {
        boot_positions(names, n - 1).push(n - 1)
    } else {
        boot_positions(names, n - 1)
    }
}

/// Reading and decoding the variable at position `k` succeeded.
pub open spec fn var_decodes(reads: Seq<Option<Result<Vec<u8>, BootControlError>>>, k: int) -> bool {
    reads[k] matches Some(Ok(p)) && load_option_fits(p@)
}

/// `e` is the failure of reading or decoding the variable at position `k`:
/// the read error itself, or `MalformedValue` for a value too short.
pub open spec fn var_failure(reads: Seq<Option<Result<Vec<u8>, BootControlError>>>, k: int, e: BootControlError) -> bool {
    match reads[k] {
        Some(Err(x)) => crate::error::same_error(e, x),
        Some(Ok(p)) => !load_option_fits(p@) && e is MalformedValue,
        None => false,
    }
}

/// `e` is the entry decoded from the variable at position `k`.
pub open spec fn entry_from(
    names: Seq<String>,
    reads: Seq<Option<Result<Vec<u8>, BootControlError>>>,
    k: int,
    e: EfiBootEntry,
) -> bool {
    reads[k] matches Some(Ok(p)) && decodes_load_option(e, boot_index(names[k]@)->0 as u16, p@)
}

/// `entries` holds, in order, the entries decoded from the `Boot####`
/// variables among `names[..n]`.
pub open spec fn decoded_prefix(
    names: Seq<String>,
    reads: Seq<Option<Result<Vec<u8>, BootControlError>>>,
    entries: Seq<EfiBootEntry>,
    n: int,
) -> bool {
    let pos = boot_positions(names, n);
    &&& entries.len() == pos.len()
    &&& forall|j: int| 0 <= j < pos.len() ==> entry_from(names, reads, pos[j], #[trigger] entries[j])
}

/// `entries` holds, in order, the entries decoded from the `Boot####`
/// variables of `names` (their values read into `reads`).
pub open spec fn decoded_in_order(
    names: Seq<String>,
    reads: Seq<Option<Result<Vec<u8>, BootControlError>>>,
    entries: Seq<EfiBootEntry>,
) -> bool {
    decoded_prefix(names, reads, entries, names.len() as int)
}

proof fn lemma_boot_positions(names: Seq<String>, n: int)
    requires
        0 <= n <= names.len(),
    ensures
        forall|j: int|
            0 <= j < boot_positions(names, n).len() ==> 0 <= #[trigger] boot_positions(names, n)[j] < n
                && boot_index(names[boot_positions(names, n)[j]]@) is Some,
        forall|j: int, k: int|
            0 <= j < k < boot_positions(names, n).len() ==> boot_positions(names, n)[j]
                < boot_positions(names, n)[k],
        forall|m: int|
            0 <= m < n && boot_index(names[m]@) is Some ==> exists|j: int|
                0 <= j < boot_positions(names, n).len() && boot_positions(names, n)[j] == m,
    decreases n,
{
    if n > 0 {
        lemma_boot_positions(names, n - 1);
        let prev = boot_positions(names, n - 1);
        if boot_index(names[n - 1]@) is Some {
            let cur = prev.push(n - 1);
            assert forall|m: int| 0 <= m < n && boot_index(names[m]@) is Some implies exists|j: int|
                0 <= j < cur.len() && cur[j] == m by {
                if m == n - 1 {
                    assert(cur[prev.len() as int] == m);
                } else {
                    let j = choose|j: int| 0 <= j < prev.len() && prev[j] == m;
                    assert(cur[j] == m);
                }
            }
        }
    }
}

/// Decode the `Boot####` variables among `names`, in order; `reads[i]` is
/// what reading `names[i]` gave (`None` for names that are not `Boot####`).
/// The first failure, in order, is returned.
pub fn decode_boot_vars(
    names: &[String],
    reads: &[Option<Result<Vec<u8>, BootControlError>>],
) -> (r: Result<Vec<EfiBootEntry>, BootControlError>)
    requires
        reads@.len() == names@.len(),
        forall|i: int| 0 <= i < names@.len() && boot_index(names@[i]@) is Some ==> (#[trigger] reads@[i]) is Some,
    ensures
        match r {
            Ok(v) => decoded_in_order(names@, reads@, v@) && forall|k: int|
                0 <= k < names@.len() && boot_index(names@[k]@) is Some ==> var_decodes(reads@, k),
            Err(e) => exists|k: int|
                0 <= k < names@.len() && boot_index(names@[k]@) is Some && var_failure(reads@, k, e)
                    && forall|m: int|
                    0 <= m < k && boot_index(names@[m]@) is Some ==> var_decodes(reads@, m),
        },
{
    let mut out: Vec<EfiBootEntry> = Vec::new();
    let mut i: usize = 0;
    while i < names.len()
        invariant
            i <= names@.len(),
            reads@.len() == names@.len(),
            forall|i: int| 0 <= i < names@.len() && boot_index(names@[i]@) is Some ==> (#[trigger] reads@[i]) is Some,
            decoded_prefix(names@, reads@, out@, i as int),
            forall|m: int| 0 <= m < i && boot_index(names@[m]@) is Some ==> var_decodes(reads@, m),
        decreases names@.len() - i,
    {
        let ghost pos = boot_positions(names@, i as int);
        match boot_entry_index(names[i].as_str()) {
            None => {
                assert(boot_positions(names@, i + 1) == pos);
            },
            Some(index) => {
                assert(boot_index(names@[i as int]@) == Some(index as int));
                match &reads[i] {
                    None => {
                        assert(false);
                    },
                    Some(Err(e)) => {
                        let err = crate::error::copy_error(e);
                        assert(var_failure(reads@, i as int, err));
                        return Err(err);
                    },
                    Some(Ok(p)) => {
                        match parse_boot_entry(index, p.as_slice()) {
                            Err(e) => {
                                assert(var_failure(reads@, i as int, e));
                                return Err(e);
                            },
                            Ok(entry) => {
                                assert(boot_positions(names@, i + 1) == pos.push(i as int));
                                let ghost before = out@;
                                out.push(entry);
                                assert(var_decodes(reads@, i as int));
                                assert(entry_from(names@, reads@, i as int, entry));
                                assert forall|j: int|
                                    0 <= j < boot_positions(names@, i + 1).len() implies entry_from(
                                        names@,
                                        reads@,
                                        boot_positions(names@, i + 1)[j],
                                        #[trigger] out@[j],
                                    ) by {
                                    if j < pos.len() {
                                        assert(out@[j] == before[j]);
                                        assert(boot_positions(names@, i + 1)[j] == pos[j]);
                                    } else {
                                        assert(out@[j] == entry);
                                        assert(boot_positions(names@, i + 1)[j] == i as int);
                                    }
                                }
                            },
                        }
                    },
                }
            },
        }
        i = i + 1;
    }
    proof {
        lemma_boot_positions(names@, names@.len() as int);
    }
    Ok(out)
}

/// Entries in ascending order of index.
pub open spec fn ascending_index(v: Seq<EfiBootEntry>) -> bool {
    forall|i: int, j: int| 0 <= i < j < v.len() ==> v[i].index <= v[j].index
}

/// Order entries by index; entries with equal indices keep their order.
pub fn sort_by_index(entries: Vec<EfiBootEntry>) -> (r: Vec<EfiBootEntry>)
    ensures
        ascending_index(r@),
        r@.to_multiset() == entries@.to_multiset(),
{
    let mut rest = entries;
    let ghost orig = rest@;
    let n = rest.len();
    let mut src: Vec<EfiBootEntry> = Vec::new();
    while rest.len() > 0
        invariant
            src@.len() + rest@.len() == orig.len(),
            rest@ == orig.take(rest@.len() as int),
            forall|k: int| 0 <= k < src@.len() ==> src@[k] == orig[orig.len() - 1 - k],
        decreases rest@.len(),
    {
        let x = rest.pop().unwrap();
        src.push(x);
        assert(rest@ =~= orig.take(rest@.len() as int));
    }
    let mut out: Vec<EfiBootEntry> = Vec::new();
    assert(orig.take(0) =~= Seq::<EfiBootEntry>::empty());
    let mut i: usize = 0;
    while i < n
        invariant
            n == orig.len(),
            i <= n,
            src@.len() == n - i,
            forall|k: int| 0 <= k < src@.len() ==> src@[k] == orig[orig.len() - 1 - k],
            ascending_index(out@),
            out@.to_multiset() == orig.take(i as int).to_multiset(),
        decreases n - i,
    {
        let x = src.pop().unwrap();
        assert(x == orig[i as int]);
        let mut p: usize = 0;
        while p < out.len() && out[p].index <= x.index
            invariant
                p <= out@.len(),
                forall|k: int| 0 <= k < p ==> (#[trigger] out@[k]).index <= x.index,
            decreases out@.len() - p,
        {
            p = p + 1;
        }
        let ghost old_out = out@;
        out.insert(p, x);
        proof {
            vstd::seq_lib::to_multiset_insert(old_out, p as int, x);
            assert(orig.take(i + 1) =~= orig.take(i as int).push(x));
            vstd::seq_lib::to_multiset_build(orig.take(i as int), x);
            assert forall|a: int, b: int| 0 <= a < b < out@.len() implies out@[a].index <= out@[b].index by {
                if a < p && b == p {
                } else if a == p {
                    assert(out@[b] == old_out[b - 1]);
                    assert(old_out[p as int].index > x.index);
                } else if b < p {
                } else if a < p && b > p {
                    assert(out@[b] == old_out[b - 1]);
                } else {
                    assert(out@[a] == old_out[a - 1]);
                    assert(out@[b] == old_out[b - 1]);
                }
            }
        }
        i = i + 1;
    }
    assert(orig.take(n as int) =~= orig);
    out
}

/// The `Boot####` entries among the global variables `names` (their values
/// read into `reads`), in ascending order of index.
pub fn list_boot_entries(
    names: &[String],
    reads: &[Option<Result<Vec<u8>, BootControlError>>],
) -> (r: Result<Vec<EfiBootEntry>, BootControlError>)
    requires
        reads@.len() == names@.len(),
        forall|i: int| 0 <= i < names@.len() && boot_index(names@[i]@) is Some ==> (#[trigger] reads@[i]) is Some,
    ensures
        match r {
            Ok(v) => ascending_index(v@) && (exists|d: Seq<EfiBootEntry>|
                decoded_in_order(names@, reads@, d) && v@.to_multiset() == d.to_multiset()),
            Err(e) => exists|k: int|
                0 <= k < names@.len() && boot_index(names@[k]@) is Some && var_failure(reads@, k, e)
                    && forall|m: int|
                    0 <= m < k && boot_index(names@[m]@) is Some ==> var_decodes(reads@, m),
        },
{
    match decode_boot_vars(names, reads) {
        Ok(v) => {
            let ghost d = v@;
            let s = sort_by_index(v);
            Ok(s)
        },
        Err(e) => Err(e),
    }
}

} // verus!
