//! Typed GRUB settings as the GUI's Bootloader page edits them: loaded
//! values, locally staged values, and the per-key diff handed to the
//! confirmation sheet.

use vstd::prelude::*;
use vstd::string::StringExecFns;
use crate::text::{chars_of, chars_eq, string_of, decimal, u32_to_decimal, parse_u32, parse_u32_spec};

verus! {

/// The largest timeout the settings accept, in seconds.
pub const MAX_TIMEOUT_SECONDS: u32 = 1000000;

/// Typed values of the four settings the page manages.
#[derive(Debug, PartialEq, Eq)]
pub struct GrubSettingsDto {
    /// `GRUB_TIMEOUT`, in seconds.
    pub timeout_seconds: u32,
    /// `GRUB_TIMEOUT_STYLE`: `menu`, `countdown` or `hidden`.
    pub timeout_style: String,
    /// Positive form of `GRUB_DISABLE_OS_PROBER`.
    pub detect_other_os: bool,
    /// Positive form of `GRUB_DISABLE_RECOVERY`.
    pub generate_recovery_entries: bool,
}

impl Clone for GrubSettingsDto {
    fn clone(&self) -> (c: Self)
        ensures
            c == *self,
    {
        GrubSettingsDto {
            timeout_seconds: self.timeout_seconds,
            timeout_style: self.timeout_style.clone(),
            detect_other_os: self.detect_other_os,
            generate_recovery_entries: self.generate_recovery_entries,
        }
    }
}

/// The timeout styles GRUB knows.
#[derive(Clone, Copy, Debug, PartialEq, Eq)]
pub enum GrubTimeoutStyle {
    Menu,
    Countdown,
    Hidden,
}

/// One setting changed relative to the last successful read.
#[derive(Clone, Debug, Eq, PartialEq)]
pub struct GrubSettingChange {
    /// GRUB variable name.
    pub key: String,
    /// Value read from the daemon.
    pub previous: String,
    /// Locally staged value.
    pub desired: String,
}

/// Exact data carried from staging through confirmation to Apply.
#[derive(Debug, Eq, PartialEq)]
pub struct GrubSettingsRequest {
    /// Desired typed values.
    pub settings: GrubSettingsDto,
    /// ETag of `/etc/default/grub` at edit start.
    pub etag: String,
    /// Per-key diff used by the confirmation sheet.
    pub changes: Vec<GrubSettingChange>,
}

/// Current load state.
#[derive(Clone, Copy, Debug, Eq, PartialEq)]
pub enum GrubSettingsStatus {
    /// No request has started.
    Idle,
    /// A daemon read is in progress.
    Loading,
    /// Current values are ready.
    Ready,
    /// The read or typed parser failed.
    Error,
}

/// The style a name stands for.
pub open spec fn style_of(s: Seq<char>) -> Option<GrubTimeoutStyle> {
    if s == "menu"@ {
        Some(GrubTimeoutStyle::Menu)
    } else if s == "countdown"@ {
        Some(GrubTimeoutStyle::Countdown)
    } else if s == "hidden"@ {
        Some(GrubTimeoutStyle::Hidden)
    } else {
        None
    }
}

pub open spec fn bool_text(b: bool) -> Seq<char> {
    if b {
        "true"@
    } else {
        "false"@
    }
}

/// One diff row view: key, previous, desired.
pub type ChangeView = (Seq<char>, Seq<char>, Seq<char>);

pub open spec fn change_if(key: Seq<char>, prev: Seq<char>, want: Seq<char>) -> Seq<ChangeView> {
    if prev == want {
        Seq::empty()
    } else {
        seq![(key, prev, want)]
    }
}

/// The per-key diff between loaded and staged values, in the order
/// `GRUB_TIMEOUT`, `GRUB_TIMEOUT_STYLE`, `GRUB_DISABLE_OS_PROBER`,
/// `GRUB_DISABLE_RECOVERY`, with the values as GRUB spells them.
pub open spec fn settings_diff(b: GrubSettingsDto, c: GrubSettingsDto) -> Seq<ChangeView> {
    change_if("GRUB_TIMEOUT"@, decimal(b.timeout_seconds as nat), decimal(c.timeout_seconds as nat))
        + change_if("GRUB_TIMEOUT_STYLE"@, b.timeout_style@, c.timeout_style@) + change_if(
        "GRUB_DISABLE_OS_PROBER"@,
        bool_text(!b.detect_other_os),
        bool_text(!c.detect_other_os),
    ) + change_if(
        "GRUB_DISABLE_RECOVERY"@,
        bool_text(!b.generate_recovery_entries),
        bool_text(!c.generate_recovery_entries),
    )
}

/// The two "disable" rows of the diff speak GRUB's negative form: a row
/// for `GRUB_DISABLE_OS_PROBER` appears exactly when detecting other
/// systems was toggled, and one for `GRUB_DISABLE_RECOVERY` exactly when
/// generating recovery entries was toggled; each value is `"true"` exactly
/// when the positive setting it stands for is off (previous for the
/// loaded settings, desired for the staged ones), and `"false"` otherwise.
pub proof fn lemma_disable_rows_are_negated(b: GrubSettingsDto, c: GrubSettingsDto)
    ensures
        forall|i: int|
            0 <= i < settings_diff(b, c).len() && (#[trigger] settings_diff(b, c)[i]).0 == "GRUB_DISABLE_RECOVERY"@
                ==> ((settings_diff(b, c)[i].1 == "true"@) == !b.generate_recovery_entries && (settings_diff(b, c)[i].1
                == "true"@ || settings_diff(b, c)[i].1 == "false"@) && (settings_diff(b, c)[i].2 == "true"@)
                == !c.generate_recovery_entries && (settings_diff(b, c)[i].2 == "true"@ || settings_diff(b, c)[i].2
                == "false"@)),
        forall|i: int|
            0 <= i < settings_diff(b, c).len() && (#[trigger] settings_diff(b, c)[i]).0 == "GRUB_DISABLE_OS_PROBER"@
                ==> ((settings_diff(b, c)[i].1 == "true"@) == !b.detect_other_os && (settings_diff(b, c)[i].1
                == "true"@ || settings_diff(b, c)[i].1 == "false"@) && (settings_diff(b, c)[i].2 == "true"@)
                == !c.detect_other_os && (settings_diff(b, c)[i].2 == "true"@ || settings_diff(b, c)[i].2
                == "false"@)),
        (exists|i: int| 0 <= i < settings_diff(b, c).len() && (#[trigger] settings_diff(b, c)[i]).0
            == "GRUB_DISABLE_RECOVERY"@) <==> b.generate_recovery_entries != c.generate_recovery_entries,
        (exists|i: int| 0 <= i < settings_diff(b, c).len() && (#[trigger] settings_diff(b, c)[i]).0
            == "GRUB_DISABLE_OS_PROBER"@) <==> b.detect_other_os != c.detect_other_os,
{
    reveal_strlit("true");
    reveal_strlit("false");
    reveal_strlit("GRUB_TIMEOUT");
    reveal_strlit("GRUB_TIMEOUT_STYLE");
    reveal_strlit("GRUB_DISABLE_OS_PROBER");
    reveal_strlit("GRUB_DISABLE_RECOVERY");
    let k1 = "GRUB_TIMEOUT"@;
    let k2 = "GRUB_TIMEOUT_STYLE"@;
    let k3 = "GRUB_DISABLE_OS_PROBER"@;
    let k4 = "GRUB_DISABLE_RECOVERY"@;
    assert(k1 != k3 && k1 != k4 && k2 != k3 && k2 != k4 && k3 != k4) by {
        assert(k1.len() != k3.len() && k1.len() != k4.len() && k2.len() != k3.len() && k2.len() != k4.len()
            && k3.len() != k4.len());
    }
    assert("true"@ != "false"@) by {
        assert("true"@.len() != "false"@.len());
    }
    let r1 = change_if(k1, decimal(b.timeout_seconds as nat), decimal(c.timeout_seconds as nat));
    let r2 = change_if(k2, b.timeout_style@, c.timeout_style@);
    let r3 = change_if(k3, bool_text(!b.detect_other_os), bool_text(!c.detect_other_os));
    let r4 = change_if(k4, bool_text(!b.generate_recovery_entries), bool_text(!c.generate_recovery_entries));
    let d = settings_diff(b, c);
    assert(d == r1 + r2 + r3 + r4);
    let n12: int = (r1.len() + r2.len()) as int;
    assert forall|i: int| 0 <= i < d.len() implies (i < n12 ==> (d[i].0 == k1 || d[i].0 == k2)) && (n12 <= i
        < n12 + r3.len() ==> d[i] == r3[i - n12]) && (n12 + r3.len() <= i ==> d[i] == r4[i - n12 - r3.len()]) by {
        if i < r1.len() {
            assert(d[i] == r1[i]);
        } else if i < n12 {
            assert(d[i] == r2[i - r1.len()]);
        }
    }
    if b.generate_recovery_entries != c.generate_recovery_entries {
        assert(d[d.len() - 1].0 == k4);
    }
    if b.detect_other_os != c.detect_other_os {
        assert(d[n12].0 == k3);
    }
}

pub open spec fn change_views(v: Seq<GrubSettingChange>) -> Seq<ChangeView> {
    v.map_values(|c: GrubSettingChange| (c.key@, c.previous@, c.desired@))
}

fn str_is(s: &str, lit: &str) -> (r: bool)
    ensures
        r == (s@ == lit@),
{
    let a = chars_of(s);
    let b = chars_of(lit);
    chars_eq(a.as_slice(), b.as_slice())
}

/// The style a name stands for.
pub fn style_from_str(style: &str) -> (r: Result<GrubTimeoutStyle, String>)
    ensures
        match r {
            Ok(s) => style_of(style@) == Some(s),
            Err(m) => style_of(style@) is None && m@
                == "Timeout style must be menu, countdown, or hidden."@,
        },
{
    if str_is(style, "menu") {
        Ok(GrubTimeoutStyle::Menu)
    } else if str_is(style, "countdown") {
        Ok(GrubTimeoutStyle::Countdown)
    } else if str_is(style, "hidden") {
        Ok(GrubTimeoutStyle::Hidden)
    } else {
        Err(String::from_str("Timeout style must be menu, countdown, or hidden."))
    }
}

fn bool_string(b: bool) -> (s: String)
    ensures
        s@ == bool_text(b),
{
    if b {
        String::from_str("true")
    } else {
        String::from_str("false")
    }
}

fn push_change(changes: &mut Vec<GrubSettingChange>, key: &str, previous: String, desired: String)
    ensures
        change_views(final(changes)@) == change_views(old(changes)@) + change_if(
            key@,
            previous@,
            desired@,
        ),
{
    if previous != desired {
        let ghost before = changes@;
        changes.push(GrubSettingChange { key: String::from_str(key), previous, desired });
        assert(change_views(changes@) =~= change_views(before) + change_if(key@, previous@, desired@));
    } else {
        assert(change_views(changes@) =~= change_views(old(changes)@) + change_if(
            key@,
            previous@,
            desired@,
        ));
    }
}

/// The per-key diff between loaded and staged values.
pub fn diff_settings(baseline: &GrubSettingsDto, current: &GrubSettingsDto) -> (v: Vec<
    GrubSettingChange,
>)
    ensures
        change_views(v@) == settings_diff(*baseline, *current),
{
    let mut changes: Vec<GrubSettingChange> = Vec::new();
    assert(change_views(changes@) =~= Seq::<ChangeView>::empty());
    push_change(
        &mut changes,
        "GRUB_TIMEOUT",
        string_of(u32_to_decimal(baseline.timeout_seconds)),
        string_of(u32_to_decimal(current.timeout_seconds)),
    );
    push_change(
        &mut changes,
        "GRUB_TIMEOUT_STYLE",
        baseline.timeout_style.clone(),
        current.timeout_style.clone(),
    );
    push_change(
        &mut changes,
        "GRUB_DISABLE_OS_PROBER",
        bool_string(!baseline.detect_other_os),
        bool_string(!current.detect_other_os),
    );
    push_change(
        &mut changes,
        "GRUB_DISABLE_RECOVERY",
        bool_string(!baseline.generate_recovery_entries),
        bool_string(!current.generate_recovery_entries),
    );
    changes
}

/// Loaded and locally staged Bootloader settings.
#[derive(Debug)]
pub struct GrubSettingsModel {
    baseline: Option<GrubSettingsDto>,
    current: Option<GrubSettingsDto>,
    etag: String,
    error: String,
    status: GrubSettingsStatus,
}

impl Default for GrubSettingsModel {
    fn default() -> (m: Self)
        ensures
            m.baseline_view() is None,
            m.current_view() is None,
            m.etag_view().len() == 0,
            m.error_view().len() == 0,
            m.status_view() == GrubSettingsStatus::Idle,
    {
        GrubSettingsModel {
            baseline: None,
            current: None,
            etag: String::new(),
            error: String::new(),
            status: GrubSettingsStatus::Idle,
        }
    }
}

/// The diff of a model: empty unless both baseline and staged values exist.
pub open spec fn model_diff(b: Option<GrubSettingsDto>, c: Option<GrubSettingsDto>) -> Seq<ChangeView> {
    match (b, c) {
        (Some(b), Some(c)) => settings_diff(b, c),
        _ => Seq::empty(),
    }
}

impl GrubSettingsModel {
    pub closed spec fn baseline_view(&self) -> Option<GrubSettingsDto> {
        self.baseline
    }

    pub closed spec fn current_view(&self) -> Option<GrubSettingsDto> {
        self.current
    }

    pub closed spec fn etag_view(&self) -> Seq<char> {
        self.etag@
    }

    pub closed spec fn error_view(&self) -> Seq<char> {
        self.error@
    }

    pub closed spec fn status_view(&self) -> GrubSettingsStatus {
        self.status
    }

    /// Drop stale values while a new read is in progress.
    pub fn begin_load(&mut self)
        ensures
            final(self).baseline_view() is None,
            final(self).current_view() is None,
            final(self).etag_view().len() == 0,
            final(self).error_view().len() == 0,
            final(self).status_view() == GrubSettingsStatus::Loading,
    {
        self.baseline = None;
        self.current = None;
        self.etag = String::new();
        self.error = String::new();
        self.status = GrubSettingsStatus::Loading;
    }

    /// Store a successful read as both the baseline and the staged values.
    pub fn finish_load(&mut self, settings: GrubSettingsDto, etag: String)
        ensures
            final(self).baseline_view() == Some(settings),
            final(self).current_view() == Some(settings),
            final(self).etag_view() == etag@,
            final(self).error_view().len() == 0,
            final(self).status_view() == GrubSettingsStatus::Ready,
    {
        self.baseline = Some(settings.clone());
        self.current = Some(settings);
        self.etag = etag;
        self.error = String::new();
        self.status = GrubSettingsStatus::Ready;
    }

    /// Store a load error and drop every stale writable value.
    pub fn fail_load(&mut self, error: String)
        ensures
            final(self).baseline_view() is None,
            final(self).current_view() is None,
            final(self).etag_view().len() == 0,
            final(self).error_view() == error@,
            final(self).status_view() == GrubSettingsStatus::Error,
    {
        self.baseline = None;
        self.current = None;
        self.etag = String::new();
        self.error = error;
        self.status = GrubSettingsStatus::Error;
    }

    /// Stage a decimal timeout. Returns whether the staged value changed.
    ///
    /// Refused, leaving everything unchanged, when the text is not a
    /// decimal `u32`, when nothing is loaded, when the loaded style is not
    /// one GRUB knows, or when the value exceeds [`MAX_TIMEOUT_SECONDS`].
    pub fn stage_timeout(&mut self, value: &str) -> (r: Result<bool, String>)
        ensures
            r is Ok <==> (parse_u32_spec(value@) is Some && old(self).current_view() is Some
                && style_of(old(self).current_view()->0.timeout_style@) is Some
                && parse_u32_spec(value@)->0 <= MAX_TIMEOUT_SECONDS),
            r matches Ok(changed) ==> changed == (old(self).current_view()->0.timeout_seconds
                != parse_u32_spec(value@)->0) && final(self).current_view() == Some(
                GrubSettingsDto {
                    timeout_seconds: parse_u32_spec(value@)->0,
                    ..old(self).current_view()->0
                },
            ),
            r is Err ==> final(self).current_view() == old(self).current_view(),
            final(self).baseline_view() == old(self).baseline_view(),
            final(self).etag_view() == old(self).etag_view(),
            final(self).error_view() == old(self).error_view(),
            final(self).status_view() == old(self).status_view(),
    {
        let timeout_seconds = match parse_u32(value) {
            Some(t) => t,
            None => {
                return Err(String::from_str("Timeout must be an integer from 0 to 1000000."));
            },
        };
        let mut current = match self.current.take() {
            Some(c) => c,
            None => {
                return Err(String::from_str("Refresh typed GRUB settings before editing."));
            },
        };
        match style_from_str(current.timeout_style.as_str()) {
            Ok(_) => {},
            Err(m) => {
                self.current = Some(current);
                return Err(m);
            },
        }
        if timeout_seconds > MAX_TIMEOUT_SECONDS {
            self.current = Some(current);
            return Err(String::from_str("Timeout must be an integer from 0 to 1000000."));
        }
        let changed = current.timeout_seconds != timeout_seconds;
        current.timeout_seconds = timeout_seconds;
        self.current = Some(current);
        Ok(changed)
    }

    /// Stage one of the three timeout styles. Returns whether the staged
    /// value changed; refused, leaving everything unchanged, for an unknown
    /// style or when nothing is loaded.
    pub fn stage_timeout_style(&mut self, style: &str) -> (r: Result<bool, String>)
        ensures
            r is Ok <==> (style_of(style@) is Some && old(self).current_view() is Some),
            r matches Ok(changed) ==> (changed == (old(self).current_view()->0.timeout_style@
                != style@) && (final(self).current_view() matches Some(c) && c.timeout_style@
                == style@ && c.timeout_seconds == old(self).current_view()->0.timeout_seconds
                && c.detect_other_os == old(self).current_view()->0.detect_other_os
                && c.generate_recovery_entries
                == old(self).current_view()->0.generate_recovery_entries)),
            r is Err ==> final(self).current_view() == old(self).current_view(),
            final(self).baseline_view() == old(self).baseline_view(),
            final(self).etag_view() == old(self).etag_view(),
            final(self).error_view() == old(self).error_view(),
            final(self).status_view() == old(self).status_view(),
    {
        style_from_str(style)?;
        let mut current = match self.current.take() {
            Some(c) => c,
            None => {
                return Err(String::from_str("Refresh typed GRUB settings before editing."));
            },
        };
        let a = chars_of(current.timeout_style.as_str());
        let b = chars_of(style);
        let changed = !chars_eq(a.as_slice(), b.as_slice());
        current.timeout_style = String::from_str(style);
        self.current = Some(current);
        Ok(changed)
    }

    /// Stage the other-operating-system detection toggle. Returns whether
    /// the staged value changed; without loaded values nothing happens.
    pub fn stage_detect_other_os(&mut self, enabled: bool) -> (changed: bool)
        ensures
            match old(self).current_view() {
                Some(c) => changed == (c.detect_other_os != enabled) && final(self).current_view()
                    == Some(GrubSettingsDto { detect_other_os: enabled, ..c }),
                None => !changed && final(self).current_view() is None,
            },
            final(self).baseline_view() == old(self).baseline_view(),
            final(self).etag_view() == old(self).etag_view(),
            final(self).error_view() == old(self).error_view(),
            final(self).status_view() == old(self).status_view(),
    {
        match self.current.take() {
            Some(mut c) => {
                let changed = c.detect_other_os != enabled;
                c.detect_other_os = enabled;
                self.current = Some(c);
                changed
            },
            None => false,
        }
    }

    /// Stage the recovery-entry generation toggle. Returns whether the
    /// staged value changed; without loaded values nothing happens.
    pub fn stage_recovery_entries(&mut self, enabled: bool) -> (changed: bool)
        ensures
            match old(self).current_view() {
                Some(c) => changed == (c.generate_recovery_entries != enabled)
                    && final(self).current_view() == Some(
                    GrubSettingsDto { generate_recovery_entries: enabled, ..c },
                ),
                None => !changed && final(self).current_view() is None,
            },
            final(self).baseline_view() == old(self).baseline_view(),
            final(self).etag_view() == old(self).etag_view(),
            final(self).error_view() == old(self).error_view(),
            final(self).status_view() == old(self).status_view(),
    {
        match self.current.take() {
            Some(mut c) => {
                let changed = c.generate_recovery_entries != enabled;
                c.generate_recovery_entries = enabled;
                self.current = Some(c);
                changed
            },
            None => false,
        }
    }

    /// Discard every staged value: back to the loaded ones.
    pub fn discard(&mut self)
        ensures
            final(self).current_view() == old(self).baseline_view(),
            final(self).baseline_view() == old(self).baseline_view(),
            final(self).etag_view() == old(self).etag_view(),
            final(self).error_view() == old(self).error_view(),
            final(self).status_view() == old(self).status_view(),
    {
        self.current = match &self.baseline {
            Some(b) => Some(b.clone()),
            None => None,
        };
    }

    fn changes(&self) -> (v: Vec<GrubSettingChange>)
        ensures
            change_views(v@) == model_diff(self.baseline_view(), self.current_view()),
    {
        match (&self.baseline, &self.current) {
            (Some(b), Some(c)) => diff_settings(b, c),
            _ => {
                let v: Vec<GrubSettingChange> = Vec::new();
                assert(change_views(v@) =~= Seq::<ChangeView>::empty());
                v
            },
        }
    }

    /// The versioned request for the staged values, when at least one value
    /// differs from the loaded one and the version is known.
    pub fn pending_request(&self) -> (r: Option<GrubSettingsRequest>)
        ensures
            r is Some <==> (model_diff(self.baseline_view(), self.current_view()).len() > 0
                && self.etag_view().len() > 0),
            r matches Some(q) ==> Some(q.settings) == self.current_view() && q.etag@
                == self.etag_view() && change_views(q.changes@) == model_diff(
                self.baseline_view(),
                self.current_view(),
            ),
    {
        let changes = self.changes();
        if changes.len() == 0 || self.etag.as_str().is_empty() {
            return None;
        }
        match &self.current {
            Some(c) => Some(
                GrubSettingsRequest { settings: c.clone(), etag: self.etag.clone(), changes },
            ),
            None => None,
        }
    }

    /// The number of staged keys.
    pub fn pending_count(&self) -> (n: i32)
        ensures
            n == model_diff(self.baseline_view(), self.current_view()).len(),
    {
        let c = self.changes();
        assert(c@.len() <= 4);
        c.len() as i32
    }

    /// The staged values, when loaded.
    pub fn settings(&self) -> (r: Option<&GrubSettingsDto>)
        ensures
            match r {
                Some(s) => self.current_view() == Some(*s),
                None => self.current_view() is None,
            },
    {
        match &self.current {
            Some(c) => Some(c),
            None => None,
        }
    }

    /// The source ETag.
    pub fn etag(&self) -> (e: &str)
        ensures
            e@ == self.etag_view(),
    {
        self.etag.as_str()
    }

    /// The current error text.
    pub fn error(&self) -> (e: &str)
        ensures
            e@ == self.error_view(),
    {
        self.error.as_str()
    }

    /// The current load status.
    pub fn status(&self) -> (s: GrubSettingsStatus)
        ensures
            s == self.status_view(),
    {
        self.status
    }
}

} // verus!
