//! One-shot confirmation gate for destructive GUI operations: a preview is
//! prepared from live (or explicitly simulated) data, and the operation is
//! armed only when every preflight check passed. Confirming consumes it.

use vstd::prelude::*;
use vstd::string::StringExecFns;
use crate::text::{chars_of, chars_eq};
use crate::boot_entries::GrubDefaultRequest;
use crate::grub::{build_assignment_line, assignment_line};

verus! {

/// Source of the data displayed in a preview.
#[derive(Clone, Copy, Debug, Eq, PartialEq)]
pub enum ConfirmationMode {
    /// Data loaded from the running daemon.
    Live,
    /// Explicitly simulated data used by Demo Mode.
    Demo,
}

/// One preflight fact shown by the confirmation sheet.
#[derive(Clone, Debug, Eq, PartialEq)]
pub struct ConfirmationCheck {
    /// Short check name.
    pub name: String,
    /// Whether the fact permits the operation.
    pub passed: bool,
    /// Concrete evidence or failure reason.
    pub detail: String,
}

impl ConfirmationCheck {
    /// The state the confirmation sheet shows: `pass` or `fail`.
    pub fn state_label(&self) -> (l: &'static str)
        ensures
            l@ == (if self.passed {
                "pass"@
            } else {
                "fail"@
            }),
    {
        if self.passed {
            "pass"
        } else {
            "fail"
        }
    }
}

/// One line of a preview diff.
#[derive(Clone, Debug, Eq, PartialEq)]
pub struct ConfirmationDiffLine {
    /// Diff side: `context`, `add`, or `remove`.
    pub side: String,
    /// Displayed line content.
    pub text: String,
    /// File heading for the line.
    pub file_path: String,
}

/// Complete data rendered by the confirmation sheet.
#[derive(Clone, Debug, Eq, PartialEq)]
pub struct ConfirmationPreview {
    /// Human-readable operation label.
    pub verb_label: String,
    /// Concrete operation target and source version.
    pub target: String,
    /// Exact phrase required by the type-to-confirm gate.
    pub required_text: String,
    /// Equivalent command-line operation.
    pub command_cli: String,
    /// Preview diff, empty when it cannot be known before execution.
    pub diff: Vec<ConfirmationDiffLine>,
    /// Facts used to decide whether confirmation is allowed.
    pub preflight: Vec<ConfirmationCheck>,
    /// Whether all required live data is present.
    pub can_confirm: bool,
    /// Known snapshot identifier, empty until a live daemon creates one.
    pub snapshot_id: String,
}

/// The prepared, not yet confirmed operations.
#[derive(Debug)]
pub struct ConfirmationSession {
    rebuild_armed: bool,
    pending_default: Option<GrubDefaultRequest>,
}

impl Default for ConfirmationSession {
    fn default() -> (s: Self)
        ensures
            !s.rebuild_armed_view(),
            s.pending_default_view() is None,
    {
        ConfirmationSession { rebuild_armed: false, pending_default: None }
    }
}

/// The live rebuild preview for the loaded backend and ETag.
pub open spec fn is_live_rebuild_preview(p: ConfirmationPreview, backend: Seq<char>, etag: Seq<
    char,
>) -> bool {
    let backend_ready = backend == "grub"@;
    let etag_ready = etag.len() > 0;
    let label = if etag_ready {
        etag
    } else {
        "unavailable"@
    };
    &&& p.verb_label@ == "Rewrite GRUB"@
    &&& p.target@ == "bootcontrold will regenerate /boot/grub/grub.cfg from the loaded /etc/default/grub state (ETag "@
        + label + ")."@
    &&& p.required_text@ == "rewrite GRUB"@
    &&& p.command_cli@ == "bootcontrol rebuild"@
    &&& p.diff@.len() == 0
    &&& p.preflight@.len() == 2
    &&& p.preflight@[0].name@ == "Active backend"@
    &&& p.preflight@[0].passed == backend_ready
    &&& p.preflight@[0].detail@ == (if backend_ready {
        "grub (reported by bootcontrold)"@
    } else if backend.len() == 0 {
        "unavailable; refresh live state"@
    } else {
        backend + "; GRUB rebuild is unavailable"@
    })
    &&& p.preflight@[1].name@ == "Source configuration version"@
    &&& p.preflight@[1].passed == etag_ready
    &&& p.preflight@[1].detail@ == (if etag_ready {
        etag
    } else {
        "unavailable; refresh live state"@
    })
    &&& p.can_confirm == (backend_ready && etag_ready)
    &&& p.snapshot_id@.len() == 0
}

/// The simulated Demo Mode rebuild preview.
pub open spec fn is_demo_rebuild_preview(p: ConfirmationPreview) -> bool {
    &&& p.verb_label@ == "Rewrite GRUB"@
    &&& p.target@ == "Demo Mode simulation: no boot files will be changed."@
    &&& p.required_text@ == "rewrite GRUB"@
    &&& p.command_cli@ == "bootcontrol rebuild"@
    &&& p.diff@.len() == 2
    &&& p.diff@[0].side@ == "remove"@
    &&& p.diff@[0].text@ == "GRUB_TIMEOUT=10"@
    &&& p.diff@[0].file_path@ == "DEMO /etc/default/grub"@
    &&& p.diff@[1].side@ == "add"@
    &&& p.diff@[1].text@ == "GRUB_TIMEOUT=5"@
    &&& p.diff@[1].file_path@ == "DEMO /etc/default/grub"@
    &&& p.preflight@.len() == 1
    &&& p.preflight@[0].name@ == "Demo Mode"@
    &&& p.preflight@[0].passed
    &&& p.preflight@[0].detail@ == "simulated check; no daemon or boot files are used"@
    &&& p.can_confirm
    &&& p.snapshot_id@ == "demo-snapshot-preview"@
}

/// The sheet for restoring snapshot `id`: type `restore` to confirm; the
/// daemon reports what changes, so there is no diff and no preflight.
pub open spec fn is_restore_preview(p: ConfirmationPreview, id: Seq<char>) -> bool {
    &&& p.verb_label@ == "Restore Snapshot"@
    &&& p.target@ == "Will overwrite every file captured in snapshot "@ + id + "."@
    &&& p.required_text@ == "restore"@
    &&& p.command_cli@ == "bootcontrol snapshot restore "@ + id + " <current-etag>"@
    &&& p.snapshot_id@ == id
    &&& p.diff@.len() == 0
    &&& p.preflight@.len() == 0
    &&& p.can_confirm
}

/// The confirmation sheet for restoring snapshot `id`.
pub fn restore_preview(id: &str) -> (p: ConfirmationPreview)
    ensures
        is_restore_preview(p, id@),
{
    ConfirmationPreview {
        verb_label: String::from_str("Restore Snapshot"),
        target: cat3("Will overwrite every file captured in snapshot ", id, "."),
        required_text: String::from_str("restore"),
        command_cli: cat3("bootcontrol snapshot restore ", id, " <current-etag>"),
        diff: Vec::new(),
        preflight: Vec::new(),
        can_confirm: true,
        snapshot_id: String::from_str(id),
    }
}

/// The preview for changing the default entry. Live data needs both
/// versions and a selected path; the diff shows the old and the new
/// `GRUB_DEFAULT` assignment as the daemon will write it.
pub open spec fn is_default_preview(p: ConfirmationPreview, mode: ConfirmationMode, q: GrubDefaultRequest) -> bool {
    let file = if mode == ConfirmationMode::Demo {
        "DEMO /etc/default/grub"@
    } else {
        "/etc/default/grub"@
    };
    &&& p.verb_label@ == "Set default entry"@
    &&& p.required_text@ == "set default"@
    &&& p.command_cli@ == "bootcontrol set-value GRUB_DEFAULT "@ + q.selected_path@
    &&& p.diff@.len() == 2
    &&& p.diff@[0].side@ == "remove"@
    &&& p.diff@[0].text@ == assignment_line("GRUB_DEFAULT"@, q.previous_path@)
    &&& p.diff@[0].file_path@ == file
    &&& p.diff@[1].side@ == "add"@
    &&& p.diff@[1].text@ == assignment_line("GRUB_DEFAULT"@, q.selected_path@)
    &&& p.diff@[1].file_path@ == file
    &&& p.snapshot_id@.len() == 0
    &&& (mode == ConfirmationMode::Demo ==> {
        &&& p.target@ == "Demo Mode simulation: no boot files will be changed."@
        &&& p.preflight@.len() == 1
        &&& p.preflight@[0].name@ == "Demo Mode"@
        &&& p.preflight@[0].passed
        &&& p.preflight@[0].detail@ == "simulated check; no daemon or boot files are used"@
        &&& p.can_confirm
    })
    &&& (mode == ConfirmationMode::Live ==> {
        &&& p.target@ == "bootcontrold will set GRUB_DEFAULT in /etc/default/grub to "@
            + q.selected_path@ + "."@
        &&& p.preflight@.len() == 3
        &&& p.preflight@[0].name@ == "Selected entry"@
        &&& p.preflight@[0].passed == (q.selected_path@.len() > 0)
        &&& p.preflight@[1].name@ == "Menu version"@
        &&& p.preflight@[1].passed == (q.menu_etag@.len() > 0)
        &&& p.preflight@[2].name@ == "Source configuration version"@
        &&& p.preflight@[2].passed == (q.config_etag@.len() > 0)
        &&& p.can_confirm == (q.selected_path@.len() > 0 && q.menu_etag@.len() > 0
            && q.config_etag@.len() > 0)
    })
}

fn cat2(a: &str, b: &str) -> (s: String)
    ensures
        s@ == a@ + b@,
{
    let mut s = String::from_str(a);
    s.append(b);
    s
}

fn cat3(a: &str, b: &str, c: &str) -> (s: String)
    ensures
        s@ == a@ + b@ + c@,
{
    let mut s = String::from_str(a);
    s.append(b);
    s.append(c);
    s
}

fn check(name: &str, passed: bool, detail: String) -> (c: ConfirmationCheck)
    ensures
        c.name@ == name@,
        c.passed == passed,
        c.detail@ == detail@,
{
    ConfirmationCheck { name: String::from_str(name), passed, detail }
}

fn diff_line(side: &str, text: String, file_path: &str) -> (d: ConfirmationDiffLine)
    ensures
        d.side@ == side@,
        d.text@ == text@,
        d.file_path@ == file_path@,
{
    ConfirmationDiffLine { side: String::from_str(side), text, file_path: String::from_str(file_path) }
}

fn str_is(s: &str, lit: &str) -> (r: bool)
    ensures
        r == (s@ == lit@),
{
    let a = chars_of(s);
    let b = chars_of(lit);
    chars_eq(a.as_slice(), b.as_slice())
}

/// The live GRUB rebuild preview.
pub fn live_rebuild_preview(active_backend: &str, etag: &str) -> (p: ConfirmationPreview)
    ensures
        is_live_rebuild_preview(p, active_backend@, etag@),
{
    let backend_ready = str_is(active_backend, "grub");
    let etag_ready = !etag.is_empty();
    let can_confirm = backend_ready && etag_ready;
    let label = if etag_ready {
        etag
    } else {
        "unavailable"
    };
    let target = cat3(
        "bootcontrold will regenerate /boot/grub/grub.cfg from the loaded /etc/default/grub state (ETag ",
        label,
        ").",
    );
    let backend_detail = if backend_ready {
        String::from_str("grub (reported by bootcontrold)")
    } else if active_backend.is_empty() {
        String::from_str("unavailable; refresh live state")
    } else {
        cat2(active_backend, "; GRUB rebuild is unavailable")
    };
    let etag_detail = if etag_ready {
        String::from_str(etag)
    } else {
        String::from_str("unavailable; refresh live state")
    };
    let mut preflight: Vec<ConfirmationCheck> = Vec::new();
    preflight.push(check("Active backend", backend_ready, backend_detail));
    preflight.push(check("Source configuration version", etag_ready, etag_detail));
    ConfirmationPreview {
        verb_label: String::from_str("Rewrite GRUB"),
        target,
        required_text: String::from_str("rewrite GRUB"),
        command_cli: String::from_str("bootcontrol rebuild"),
        diff: Vec::new(),
        preflight,
        can_confirm,
        snapshot_id: String::new(),
    }
}

/// The simulated Demo Mode rebuild preview.
pub fn demo_rebuild_preview() -> (p: ConfirmationPreview)
    ensures
        is_demo_rebuild_preview(p),
{
    let mut diff: Vec<ConfirmationDiffLine> = Vec::new();
    diff.push(diff_line("remove", String::from_str("GRUB_TIMEOUT=10"), "DEMO /etc/default/grub"));
    diff.push(diff_line("add", String::from_str("GRUB_TIMEOUT=5"), "DEMO /etc/default/grub"));
    let mut preflight: Vec<ConfirmationCheck> = Vec::new();
    preflight.push(
        check(
            "Demo Mode",
            true,
            String::from_str("simulated check; no daemon or boot files are used"),
        ),
    );
    ConfirmationPreview {
        verb_label: String::from_str("Rewrite GRUB"),
        target: String::from_str("Demo Mode simulation: no boot files will be changed."),
        required_text: String::from_str("rewrite GRUB"),
        command_cli: String::from_str("bootcontrol rebuild"),
        diff,
        preflight,
        can_confirm: true,
        snapshot_id: String::from_str("demo-snapshot-preview"),
    }
}

/// The preview for changing the default entry.
pub fn default_preview(mode: ConfirmationMode, request: &GrubDefaultRequest) -> (p: ConfirmationPreview)
    ensures
        is_default_preview(p, mode, *request),
{
    let demo = match mode {
        ConfirmationMode::Demo => true,
        ConfirmationMode::Live => false,
    };
    let file = if demo {
        "DEMO /etc/default/grub"
    } else {
        "/etc/default/grub"
    };
    let mut diff: Vec<ConfirmationDiffLine> = Vec::new();
    diff.push(
        diff_line(
            "remove",
            build_assignment_line("GRUB_DEFAULT", request.previous_path.as_str()),
            file,
        ),
    );
    diff.push(
        diff_line("add", build_assignment_line("GRUB_DEFAULT", request.selected_path.as_str()), file),
    );
    let mut preflight: Vec<ConfirmationCheck> = Vec::new();
    let (target, can_confirm) = if demo {
        preflight.push(
            check(
                "Demo Mode",
                true,
                String::from_str("simulated check; no daemon or boot files are used"),
            ),
        );
        (String::from_str("Demo Mode simulation: no boot files will be changed."), true)
    } else {
        let sel_ok = !request.selected_path.as_str().is_empty();
        let menu_ok = !request.menu_etag.as_str().is_empty();
        let cfg_ok = !request.config_etag.as_str().is_empty();
        preflight.push(check("Selected entry", sel_ok, request.selected_path.clone()));
        preflight.push(check("Menu version", menu_ok, request.menu_etag.clone()));
        preflight.push(check("Source configuration version", cfg_ok, request.config_etag.clone()));
        (
            cat3(
                "bootcontrold will set GRUB_DEFAULT in /etc/default/grub to ",
                request.selected_path.as_str(),
                ".",
            ),
            sel_ok && menu_ok && cfg_ok,
        )
    };
    ConfirmationPreview {
        verb_label: String::from_str("Set default entry"),
        target,
        required_text: String::from_str("set default"),
        command_cli: cat2("bootcontrol set-value GRUB_DEFAULT ", request.selected_path.as_str()),
        diff,
        preflight,
        can_confirm,
        snapshot_id: String::new(),
    }
}

impl ConfirmationSession {
    pub closed spec fn rebuild_armed_view(&self) -> bool {
        self.rebuild_armed
    }

    pub closed spec fn pending_default_view(&self) -> Option<GrubDefaultRequest> {
        self.pending_default
    }

    /// Prepare a GRUB rebuild preview; the rebuild is armed exactly when the
    /// preview allows confirmation. Any prepared default change is dropped.
    pub fn prepare_rebuild(&mut self, mode: ConfirmationMode, active_backend: &str, etag: &str) -> (p:
        ConfirmationPreview)
        ensures
            mode == ConfirmationMode::Live ==> is_live_rebuild_preview(p, active_backend@, etag@),
            mode == ConfirmationMode::Demo ==> is_demo_rebuild_preview(p),
            final(self).rebuild_armed_view() == p.can_confirm,
            final(self).pending_default_view() is None,
    {
        let preview = match mode {
            ConfirmationMode::Live => live_rebuild_preview(active_backend, etag),
            ConfirmationMode::Demo => demo_rebuild_preview(),
        };
        self.rebuild_armed = preview.can_confirm;
        self.pending_default = None;
        preview
    }

    /// Consume a prepared rebuild: true exactly once after a preview that
    /// allowed confirmation; false when blocked, cancelled or consumed.
    pub fn confirm_rebuild(&mut self) -> (go: bool)
        ensures
            go == old(self).rebuild_armed_view(),
            !final(self).rebuild_armed_view(),
            final(self).pending_default_view() == old(self).pending_default_view(),
    {
        let go = self.rebuild_armed;
        self.rebuild_armed = false;
        go
    }

    /// Prepare the preview for a staged default change; the request is held
    /// for confirmation exactly when the preview allows it. Any prepared
    /// rebuild is disarmed.
    pub fn prepare_grub_default(&mut self, mode: ConfirmationMode, request: GrubDefaultRequest) -> (p:
        ConfirmationPreview)
        ensures
            is_default_preview(p, mode, request),
            final(self).pending_default_view() == (if p.can_confirm {
                Some(request)
            } else {
                None
            }),
            !final(self).rebuild_armed_view(),
    {
        let preview = default_preview(mode, &request);
        self.rebuild_armed = false;
        self.pending_default = if preview.can_confirm {
            Some(request)
        } else {
            None
        };
        preview
    }

    /// Consume the prepared default change: the exact request once, then
    /// nothing.
    pub fn confirm_grub_default(&mut self) -> (r: Option<GrubDefaultRequest>)
        ensures
            r == old(self).pending_default_view(),
            final(self).pending_default_view() is None,
            final(self).rebuild_armed_view() == old(self).rebuild_armed_view(),
    {
        self.pending_default.take()
    }

    /// Cancel and disarm every prepared operation.
    pub fn cancel(&mut self)
        ensures
            !final(self).rebuild_armed_view(),
            final(self).pending_default_view() is None,
    {
        self.rebuild_armed = false;
        self.pending_default = None;
    }
}

} // verus!
