//! What the GUI does with each of its messages: which daemon calls a
//! confirmation leads to, which loading text and toast an operation shows,
//! which refreshes follow it, and how the log filters toggle. Drawing the
//! window, the clipboard, the file picker and the daemon calls themselves
//! are the GUI's I/O.

use vstd::prelude::*;
use vstd::string::StringExecFns;
use crate::secureboot::{join_path, joined};
use crate::text::{chars_of, contains_exec, contains_seq, count_matches, decimal, matches_from, parse_i32, parse_i32_spec, string_of, u128_to_decimal};

verus! {

/// A message from the window to the GUI's worker.
#[derive(Debug, Clone, PartialEq, Eq)]
pub enum UiMessage {
    /// Reload the key-value configuration.
    FetchEntries,
    /// Reload the generated GRUB menu.
    FetchGrubMenu,
    /// Select a menu row.
    SelectGrubMenuEntry(usize),
    /// Move the menu selection by a number of rows.
    MoveGrubMenuSelection(isize),
    /// Save one edited key.
    SaveEntry(String, String),
    /// Prepare the confirmation sheet for a GRUB rebuild.
    PrepareRebuildConfirmation,
    /// Close the confirmation sheet.
    CancelConfirmation,
    /// Rebuild `grub.cfg` (after confirmation).
    RebuildGrub,
    /// Back up the Secure Boot variables.
    BackupNvram,
    /// Sign the UKI and enroll the MOK.
    EnrollMok,
    /// Reload the snapshot list.
    FetchSnapshots,
    /// Restore a snapshot (after confirmation).
    RestoreSnapshot(String),
}

/// How a toast is styled.
#[derive(Debug, Clone, Copy, PartialEq, Eq, Structural)]
pub enum ToastKind {
    Success,
    Error,
}

impl ToastKind {
    /// The style name the window takes.
    pub fn label(&self) -> (l: &'static str)
        ensures
            l@ == (match self {
                ToastKind::Success => "success"@,
                ToastKind::Error => "error"@,
            }),
    {
        match self {
            ToastKind::Success => "success",
            ToastKind::Error => "error",
        }
    }
}

/// A short notice shown over the window.
#[derive(Debug, Clone, PartialEq, Eq)]
pub struct Toast {
    pub message: String,
    pub kind: ToastKind,
}

/// The toast `t` shows `message` styled as `kind`.
pub open spec fn shows(t: Toast, message: Seq<char>, kind: ToastKind) -> bool {
    t.message@ == message && t.kind == kind
}

fn toast_of(message: String, kind: ToastKind) -> (t: Toast)
    ensures
        shows(t, message@, kind),
{
    Toast { message, kind }
}

fn text2(a: &str, b: &str) -> (s: String)
    ensures
        s@ == a@ + b@,
{
    let mut s = String::from_str(a);
    s.append(b);
    s
}

fn text3(a: &str, b: &str, c: &str) -> (s: String)
    ensures
        s@ == a@ + b@ + c@,
{
    let mut s = String::from_str(a);
    s.append(b);
    s.append(c);
    s
}

// ── Routing ───────────────────────────────────────────────────────────────

/// Opening the confirmation sheet for a verb: only a GRUB rewrite has a
/// prepared sheet; any other verb is ignored.
pub fn open_confirmation_message(verb: &str) -> (m: Option<UiMessage>)
    ensures
        m == (if verb@ == "rewrite-grub"@ {
            Some(UiMessage::PrepareRebuildConfirmation)
        } else {
            None::<UiMessage>
        }),
{
    let v = chars_of(verb);
    let w = chars_of("rewrite-grub");
    if crate::text::chars_eq(v.as_slice(), w.as_slice()) {
        Some(UiMessage::PrepareRebuildConfirmation)
    } else {
        None
    }
}

/// What confirming the sheet does, by the verb it shows: a GRUB rewrite
/// rebuilds, a snapshot restore restores the snapshot the sheet names; any
/// other verb does nothing.
pub fn confirmed_message(verb: &str, snapshot_id: &str) -> (m: Option<UiMessage>)
    ensures
        verb@ == "Rewrite GRUB"@ ==> m == Some(UiMessage::RebuildGrub),
        verb@ == "Restore Snapshot"@ ==> (m matches Some(UiMessage::RestoreSnapshot(id)) && id@ == snapshot_id@),
        verb@ != "Rewrite GRUB"@ && verb@ != "Restore Snapshot"@ ==> m is None,
{
    proof {
        reveal_strlit("Rewrite GRUB");
        reveal_strlit("Restore Snapshot");
        assert("Rewrite GRUB"@.len() != "Restore Snapshot"@.len());
    }
    let v = chars_of(verb);
    let rewrite = chars_of("Rewrite GRUB");
    let restore = chars_of("Restore Snapshot");
    if crate::text::chars_eq(v.as_slice(), rewrite.as_slice()) {
        Some(UiMessage::RebuildGrub)
    } else if crate::text::chars_eq(v.as_slice(), restore.as_slice()) {
        Some(UiMessage::RestoreSnapshot(String::from_str(snapshot_id)))
    } else {
        None
    }
}

/// A row index from the window: negative indices select nothing.
pub fn selection_index(index: i32) -> (r: Option<usize>)
    ensures
        r == (if index >= 0 {
            Some(index as usize)
        } else {
            None::<usize>
        }),
{
    if index >= 0 {
        Some(index as usize)
    } else {
        None
    }
}

/// Reloading the configuration also reloads the GRUB menu.
pub fn fetch_entries_messages() -> (v: Vec<UiMessage>)
    ensures
        v@ == seq![UiMessage::FetchEntries, UiMessage::FetchGrubMenu],
{
    vec![UiMessage::FetchEntries, UiMessage::FetchGrubMenu]
}

/// At startup the configuration, the menu and the snapshot list load
/// together, so every page has data on first paint.
pub fn initial_messages() -> (v: Vec<UiMessage>)
    ensures
        v@ == seq![UiMessage::FetchEntries, UiMessage::FetchGrubMenu, UiMessage::FetchSnapshots],
{
    vec![UiMessage::FetchEntries, UiMessage::FetchGrubMenu, UiMessage::FetchSnapshots]
}

// ── Loading texts ─────────────────────────────────────────────────────────

/// The loading text shown while a message's operation runs, for the
/// messages that show one.
pub open spec fn loading_text(m: UiMessage) -> Option<Seq<char>> {
    match m {
        UiMessage::SaveEntry(key, _) => Some("Saving '"@ + key@ + "'..."@),
        UiMessage::RebuildGrub => Some("Rebuilding GRUB config..."@),
        UiMessage::BackupNvram => Some("Backing up EFI variables..."@),
        UiMessage::EnrollMok => Some("Signing UKI and enrolling MOK key..."@),
        UiMessage::RestoreSnapshot(id) => Some("Restoring snapshot "@ + id@ + "..."@),
        _ => None,
    }
}

/// The loading text for a message, as [`loading_text`] says.
pub fn loading_message(m: &UiMessage) -> (r: Option<String>)
    ensures
        match r {
            Some(t) => loading_text(*m) == Some(t@),
            None => loading_text(*m) is None,
        },
{
    match m {
        UiMessage::SaveEntry(key, _) => Some(text3("Saving '", key.as_str(), "'...")),
        UiMessage::RebuildGrub => Some(String::from_str("Rebuilding GRUB config...")),
        UiMessage::BackupNvram => Some(String::from_str("Backing up EFI variables...")),
        UiMessage::EnrollMok => Some(String::from_str("Signing UKI and enrolling MOK key...")),
        UiMessage::RestoreSnapshot(id) => Some(text3("Restoring snapshot ", id.as_str(), "...")),
        _ => None,
    }
}

// ── Toasts ────────────────────────────────────────────────────────────────

/// The toast after saving `key`: success, a Polkit refusal (an error text
/// naming `AccessDenied`) in plain words, or the failure's text.
pub open spec fn save_toast(key: Seq<char>, outcome: Result<(), Seq<char>>) -> (Seq<char>, ToastKind) {
    match outcome {
        Ok(()) => ("Saved '"@ + key + "' successfully"@, ToastKind::Success),
        Err(e) => if contains_seq(e, "AccessDenied"@) {
            ("Access Denied. You need to authenticate via Polkit."@, ToastKind::Error)
        } else {
            ("Failed to save: "@ + e, ToastKind::Error)
        },
    }
}

/// The error text of an outcome, as a text.
pub open spec fn outcome_text<T>(outcome: Result<T, String>) -> Result<T, Seq<char>> {
    match outcome {
        Ok(v) => Ok(v),
        Err(e) => Err(e@),
    }
}

/// After a save, the toast [`save_toast`] gives; either way the
/// configuration is reloaded, so a failed save shows what is on disk.
pub fn save_feedback(key: &str, outcome: &Result<(), String>) -> (r: (Toast, Vec<UiMessage>))
    ensures
        shows(r.0, save_toast(key@, outcome_text(*outcome)).0, save_toast(key@, outcome_text(*outcome)).1),
        r.1@ == seq![UiMessage::FetchEntries],
{
    let t = match outcome {
        Ok(()) => toast_of(text3("Saved '", key, "' successfully"), ToastKind::Success),
        Err(e) => {
            let ev = chars_of(e.as_str());
            let needle = chars_of("AccessDenied");
            if contains_exec(ev.as_slice(), needle.as_slice()) {
                toast_of(String::from_str("Access Denied. You need to authenticate via Polkit."), ToastKind::Error)
            } else {
                toast_of(text2("Failed to save: ", e.as_str()), ToastKind::Error)
            }
        },
    };
    (t, vec![UiMessage::FetchEntries])
}

/// Loading the configuration failed; `detail` describes the failure.
pub fn load_failure_toast(detail: &str) -> (t: Toast)
    ensures
        shows(t, "Failed to read GRUB config: "@ + detail@, ToastKind::Error),
{
    toast_of(text2("Failed to read GRUB config: ", detail), ToastKind::Error)
}

/// A rebuild message arrived without a current, successful preview.
pub fn rebuild_refused_toast() -> (t: Toast)
    ensures
        shows(t, "Rebuild requires a current, successful confirmation preview."@, ToastKind::Error),
{
    toast_of(String::from_str("Rebuild requires a current, successful confirmation preview."), ToastKind::Error)
}

/// After a confirmed rebuild.
pub fn rebuild_feedback(outcome: &Result<(), String>) -> (t: Toast)
    ensures
        match outcome {
            Ok(()) => shows(t, "GRUB config rebuilt successfully"@, ToastKind::Success),
            Err(e) => shows(t, "Rebuild failed: "@ + e@, ToastKind::Error),
        },
{
    match outcome {
        Ok(()) => toast_of(String::from_str("GRUB config rebuilt successfully"), ToastKind::Success),
        Err(e) => toast_of(text2("Rebuild failed: ", e.as_str()), ToastKind::Error),
    }
}

/// The number of backed-up files a backup reply names: the occurrences of
/// `.efi`, `.auth` and `.bin` in it.
pub open spec fn backup_file_count(reply: Seq<char>) -> nat {
    matches_from(reply, ".efi"@, 0) + matches_from(reply, ".auth"@, 0) + matches_from(reply, ".bin"@, 0)
}

/// The text after a successful backup whose reply names `count` files.
pub open spec fn backup_done_text(count: nat) -> Seq<char> {
    if count > 0 {
        "Backup complete: "@ + decimal(count) + " file(s) saved to /var/lib/bootcontrol/certs/"@
    } else {
        "Backup complete. Files saved to /var/lib/bootcontrol/certs/"@
    }
}

/// After an NVRAM backup; a successful reply is the JSON list of the files
/// written.
pub fn backup_feedback(outcome: &Result<String, String>) -> (t: Toast)
    ensures
        match outcome {
            Ok(reply) => shows(t, backup_done_text(backup_file_count(reply@)), ToastKind::Success),
            Err(e) => shows(t, "Backup failed: "@ + e@, ToastKind::Error),
        },
{
    match outcome {
        Ok(reply) => {
            let r = chars_of(reply.as_str());
            let efi = chars_of(".efi");
            let auth = chars_of(".auth");
            let bin = chars_of(".bin");
            proof {
                reveal_strlit(".efi");
                reveal_strlit(".auth");
                reveal_strlit(".bin");
            }
            let a = count_matches(r.as_slice(), efi.as_slice());
            let b = count_matches(r.as_slice(), auth.as_slice());
            let c = count_matches(r.as_slice(), bin.as_slice());
            let count: u128 = a as u128 + b as u128 + c as u128;
            if count > 0 {
                let digits = string_of(u128_to_decimal(count));
                toast_of(
                    text3("Backup complete: ", digits.as_str(), " file(s) saved to /var/lib/bootcontrol/certs/"),
                    ToastKind::Success,
                )
            } else {
                toast_of(
                    String::from_str("Backup complete. Files saved to /var/lib/bootcontrol/certs/"),
                    ToastKind::Success,
                )
            }
        },
        Err(e) => toast_of(text2("Backup failed: ", e.as_str()), ToastKind::Error),
    }
}

/// After signing the UKI and enrolling the MOK.
pub fn enroll_feedback(outcome: &Result<(), String>) -> (t: Toast)
    ensures
        match outcome {
            Ok(()) => shows(t, "MOK enrolled. Reboot to complete enrollment."@, ToastKind::Success),
            Err(e) => shows(t, "MOK enrollment failed: "@ + e@, ToastKind::Error),
        },
{
    match outcome {
        Ok(()) => toast_of(String::from_str("MOK enrolled. Reboot to complete enrollment."), ToastKind::Success),
        Err(e) => toast_of(text2("MOK enrollment failed: ", e.as_str()), ToastKind::Error),
    }
}

/// Listing the snapshots failed; the rows already shown stay.
pub fn snapshots_failure_toast(detail: &str) -> (t: Toast)
    ensures
        shows(t, "Failed to list snapshots: "@ + detail@, ToastKind::Error),
{
    toast_of(text2("Failed to list snapshots: ", detail), ToastKind::Error)
}

/// After restoring snapshot `id`: on success both the configuration and
/// the snapshot list reload, since the restored files changed.
pub fn restore_feedback(id: &str, outcome: &Result<(), String>) -> (r: (Toast, Vec<UiMessage>))
    ensures
        match outcome {
            Ok(()) => shows(r.0, "Snapshot "@ + id@ + " restored"@, ToastKind::Success) && r.1@ == seq![
                UiMessage::FetchEntries,
                UiMessage::FetchSnapshots,
            ],
            Err(e) => shows(r.0, "Restore failed: "@ + e@, ToastKind::Error) && r.1@.len() == 0,
        },
{
    match outcome {
        Ok(()) => (
            toast_of(text3("Snapshot ", id, " restored"), ToastKind::Success),
            vec![UiMessage::FetchEntries, UiMessage::FetchSnapshots],
        ),
        Err(e) => (toast_of(text2("Restore failed: ", e.as_str()), ToastKind::Error), Vec::new()),
    }
}

/// After trying to open the audit log of `job_id` in a terminal (the
/// terminal's name, or why none opened).
pub fn audit_log_feedback(job_id: &str, outcome: &Result<String, String>) -> (t: Toast)
    ensures
        match outcome {
            Ok(term) => shows(t, "Opened audit log for JOB_ID="@ + job_id@ + " in "@ + term@, ToastKind::Success),
            Err(e) => shows(
                t,
                "Cannot open audit log: "@ + e@ + ". Run: journalctl JOB_ID="@ + job_id@,
                ToastKind::Error,
            ),
        },
{
    match outcome {
        Ok(term) => {
            let mut m = text3("Opened audit log for JOB_ID=", job_id, " in ");
            m.append(term.as_str());
            toast_of(m, ToastKind::Success)
        },
        Err(e) => {
            let mut m = text3("Cannot open audit log: ", e.as_str(), ". Run: journalctl JOB_ID=");
            m.append(job_id);
            toast_of(m, ToastKind::Error)
        },
    }
}

/// After copying a command to the clipboard.
pub fn copy_command_feedback(outcome: &Result<(), String>) -> (t: Toast)
    ensures
        match outcome {
            Ok(()) => shows(t, "Copied command to clipboard"@, ToastKind::Success),
            Err(e) => shows(t, "Copy failed: "@ + e@, ToastKind::Error),
        },
{
    match outcome {
        Ok(()) => toast_of(String::from_str("Copied command to clipboard"), ToastKind::Success),
        Err(e) => toast_of(text2("Copy failed: ", e.as_str()), ToastKind::Error),
    }
}

/// After copying a log row's job id to the clipboard.
pub fn copy_log_row_feedback(job_id: &str, outcome: &Result<(), String>) -> (t: Toast)
    ensures
        match outcome {
            Ok(()) => shows(t, "Copied JOB_ID "@ + job_id@, ToastKind::Success),
            Err(e) => shows(t, "Copy failed: "@ + e@, ToastKind::Error),
        },
{
    match outcome {
        Ok(()) => toast_of(text2("Copied JOB_ID ", job_id), ToastKind::Success),
        Err(e) => toast_of(text2("Copy failed: ", e.as_str()), ToastKind::Error),
    }
}

/// After exporting `rows` log rows: the file written, nothing when the
/// user cancelled the picker, or why it failed.
pub fn save_logs_feedback(rows: usize, outcome: &Result<Option<String>, String>) -> (t: Option<Toast>)
    ensures
        match outcome {
            Ok(Some(path)) => t matches Some(x) && shows(
                x,
                "Saved "@ + decimal(rows as nat) + " rows to "@ + path@,
                ToastKind::Success,
            ),
            Ok(None) => t is None,
            Err(e) => t matches Some(x) && shows(x, "Save failed: "@ + e@, ToastKind::Error),
        },
{
    match outcome {
        Ok(Some(path)) => {
            let digits = string_of(u128_to_decimal(rows as u128));
            let mut m = text3("Saved ", digits.as_str(), " rows to ");
            m.append(path.as_str());
            Some(toast_of(m, ToastKind::Success))
        },
        Ok(None) => None,
        Err(e) => Some(toast_of(text2("Save failed: ", e.as_str()), ToastKind::Error)),
    }
}

/// The error the window shows when the daemon cannot be reached.
pub fn backend_error_message(detail: &str) -> (m: String)
    ensures
        m@ == "Cannot connect to BootControl daemon: "@ + detail@,
{
    text2("Cannot connect to BootControl daemon: ", detail)
}

// ── Window state ──────────────────────────────────────────────────────────

/// The log page's filters: failures only, the caller's own operations
/// only, and the time window (`24h` or `all`).
#[derive(Debug, Clone, PartialEq, Eq)]
pub struct LogFilters {
    pub only_failures: bool,
    pub only_mine: bool,
    pub time_window: String,
}

impl LogFilters {
    /// Toggle one filter by the name the window sends (`only-failures`,
    /// `only-mine`, `24h`); the time window switches between `24h` and
    /// `all`. Any other name changes nothing.
    pub fn toggle(&mut self, filter: &str)
        ensures
            filter@ == "only-failures"@ ==> *final(self) == (LogFilters {
                only_failures: !old(self).only_failures,
                ..*old(self)
            }),
            filter@ == "only-mine"@ ==> *final(self) == (LogFilters { only_mine: !old(self).only_mine, ..*old(self) }),
            filter@ == "24h"@ ==> final(self).only_failures == old(self).only_failures && final(self).only_mine
                == old(self).only_mine && final(self).time_window@ == (if old(self).time_window@ == "24h"@ {
                "all"@
            } else {
                "24h"@
            }),
            filter@ != "only-failures"@ && filter@ != "only-mine"@ && filter@ != "24h"@ ==> *final(self)
                == *old(self),
    {
        proof {
            reveal_strlit("only-failures");
            reveal_strlit("only-mine");
            reveal_strlit("24h");
            assert("only-failures"@.len() != "only-mine"@.len());
            assert("only-failures"@.len() != "24h"@.len());
            assert("only-mine"@.len() != "24h"@.len());
        }
        let f = chars_of(filter);
        let failures = chars_of("only-failures");
        let mine = chars_of("only-mine");
        let day = chars_of("24h");
        if crate::text::chars_eq(f.as_slice(), failures.as_slice()) {
            self.only_failures = !self.only_failures;
        } else if crate::text::chars_eq(f.as_slice(), mine.as_slice()) {
            self.only_mine = !self.only_mine;
        } else if crate::text::chars_eq(f.as_slice(), day.as_slice()) {
            let cur = chars_of(self.time_window.as_str());
            if crate::text::chars_eq(cur.as_slice(), day.as_slice()) {
                self.time_window = String::from_str("all");
            } else {
                self.time_window = String::from_str("24h");
            }
        }
    }
}

/// The page a demo window opens on, from `BOOTCONTROL_START_TAB`: an
/// integer clamped to the seven pages; outside demo mode, or for a value
/// that is not an integer, none.
pub fn start_tab(is_demo: bool, value: Option<&str>) -> (r: Option<i32>)
    ensures
        !is_demo ==> r is None,
        is_demo ==> r == match value {
            Some(v) => match parse_i32_spec(v@) {
                Some(n) => Some(if n < 0 {
                    0i32
                } else if n > 6 {
                    6i32
                } else {
                    n
                }),
                None => None::<i32>,
            },
            None => None::<i32>,
        },
{
    if !is_demo {
        return None;
    }
    match value {
        Some(v) => match parse_i32(v) {
            Some(n) => Some(if n < 0 {
                0
            } else if n > 6 {
                6
            } else {
                n
            }),
            None => None,
        },
        None => None,
    }
}

/// Animations are switched off when `BOOTCONTROL_REDUCED_MOTION` is `1` or
/// GNOME disabled them.
pub fn reduced_motion(env_value: Option<&str>, gnome_animations_disabled: bool) -> (r: bool)
    ensures
        r == ((env_value matches Some(v) && v@ == "1"@) || gnome_animations_disabled),
{
    let from_env = match env_value {
        Some(v) => {
            let c = chars_of(v);
            let one = chars_of("1");
            crate::text::chars_eq(c.as_slice(), one.as_slice())
        },
        None => false,
    };
    proof {
        if let Some(v) = env_value {
            assert(from_env == (v@ == "1"@));
        }
    }
    from_env || gnome_animations_disabled
}

/// The marker whose presence means the onboarding was dismissed:
/// `~/.config/bootcontrol/onboarded` under the home directory, if known.
pub fn onboarding_marker_path(home: Option<&str>) -> (r: Option<String>)
    ensures
        match home {
            Some(h) => r matches Some(p) && p@ == joined(joined(joined(h@, ".config"@), "bootcontrol"@), "onboarded"@),
            None => r is None,
        },
{
    match home {
        Some(h) => {
            let a = join_path(h, ".config");
            let b = join_path(a.as_str(), "bootcontrol");
            Some(join_path(b.as_str(), "onboarded"))
        },
        None => None,
    }
}

/// The onboarding is shown when the home directory is known and its
/// marker does not exist.
pub fn show_onboarding(marker_exists: Option<bool>) -> (r: bool)
    ensures
        r == (marker_exists == Some(false)),
{
    match marker_exists {
        Some(exists) => !exists,
        None => false,
    }
}

/// The one panic the GUI silences: AccessKit's AT-SPI bridge building a
/// zbus connection outside a Tokio runtime (the message says `no reactor
/// running` and the panic comes from a zbus source file).
pub fn is_accesskit_zbus_panic(message: &str, location_file: Option<&str>) -> (r: bool)
    ensures
        r == (contains_seq(message@, "no reactor running"@) && match location_file {
            Some(f) => contains_seq(f@, "zbus-"@),
            None => false,
        }),
{
    let m = chars_of(message);
    let needle = chars_of("no reactor running");
    let in_message = contains_exec(m.as_slice(), needle.as_slice());
    let from_zbus = match location_file {
        Some(f) => {
            let fc = chars_of(f);
            let z = chars_of("zbus-");
            contains_exec(fc.as_slice(), z.as_slice())
        },
        None => false,
    };
    in_message && from_zbus
}

} // verus!
