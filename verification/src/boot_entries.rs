//! State of the GRUB menu list shown by the GUI, its selected row, and a
//! staged change of the default entry.

use vstd::prelude::*;

verus! {

/// One row of the generated GRUB menu.
#[derive(Clone, Debug, PartialEq, Eq)]
pub struct GrubMenuEntryDto {
    /// Menu title.
    pub title: String,
    /// `--id` of the entry, when it has one.
    pub id: Option<String>,
    /// GRUB_DEFAULT-style path (`"1>0"` is the first entry of the second submenu).
    pub path: String,
    /// Nesting depth; top-level rows have depth 0.
    pub depth: u32,
    /// The row opens a submenu and cannot be booted itself.
    pub is_submenu: bool,
}

/// Current result of loading the menu.
#[derive(Clone, Copy, Debug, Eq, PartialEq)]
pub enum BootEntriesStatus {
    /// No load has started.
    Idle,
    /// A daemon request is in progress.
    Loading,
    /// The daemon returned no menu entries.
    Empty,
    /// Menu entries are available.
    Ready,
    /// The request failed.
    Error,
}

impl Default for BootEntriesStatus {
    fn default() -> (s: Self)
        ensures
            s == BootEntriesStatus::Idle,
    {
        BootEntriesStatus::Idle
    }
}

/// The name the menu view shows for a load status.
pub open spec fn status_label(s: BootEntriesStatus) -> Seq<char> {
    match s {
        BootEntriesStatus::Idle => "idle"@,
        BootEntriesStatus::Loading => "loading"@,
        BootEntriesStatus::Empty => "empty"@,
        BootEntriesStatus::Ready => "ready"@,
        BootEntriesStatus::Error => "error"@,
    }
}

impl BootEntriesStatus {
    /// The name the menu view shows for this status.
    pub fn label(&self) -> (l: &'static str)
        ensures
            l@ == status_label(*self),
    {
        match self {
            BootEntriesStatus::Idle => "idle",
            BootEntriesStatus::Loading => "loading",
            BootEntriesStatus::Empty => "empty",
            BootEntriesStatus::Ready => "ready",
            BootEntriesStatus::Error => "error",
        }
    }
}

impl GrubMenuEntryDto {
    /// The row's nesting depth as the menu view takes it, saturating at
    /// `i32::MAX`.
    pub fn view_depth(&self) -> (d: i32)
        ensures
            d == (if self.depth <= i32::MAX {
                self.depth as i32
            } else {
                i32::MAX
            }),
    {
        if self.depth <= 2147483647u32 {
            self.depth as i32
        } else {
            i32::MAX
        }
    }
}

/// Everything needed to confirm and apply a staged default: both versions
/// the change was prepared against.
#[derive(Clone, Debug, Eq, PartialEq)]
pub struct GrubDefaultRequest {
    /// Default path read from `/etc/default/grub` before staging.
    pub previous_path: String,
    /// Newly selected bootable menu path.
    pub selected_path: String,
    /// Version of the generated `grub.cfg` that defined the selected path.
    pub menu_etag: String,
    /// Version of `/etc/default/grub` that will be rewritten.
    pub config_etag: String,
}

/// Loaded menu rows, the selected row and the staged default.
#[derive(Debug)]
pub struct BootEntriesModel {
    entries: Vec<GrubMenuEntryDto>,
    etag: String,
    error: String,
    selected_index: Option<usize>,
    status: BootEntriesStatus,
    default_path: String,
    config_etag: String,
    staged_default: Option<String>,
}

impl Default for BootEntriesModel {
    fn default() -> (m: Self)
        ensures
            m.entries_view().len() == 0,
            m.etag_view().len() == 0,
            m.error_view().len() == 0,
            m.selection() is None,
            m.status_view() == BootEntriesStatus::Idle,
            m.default_view().len() == 0,
            m.config_etag_view().len() == 0,
            m.staged() is None,
    {
        BootEntriesModel {
            entries: Vec::new(),
            etag: String::new(),
            error: String::new(),
            selected_index: None,
            status: BootEntriesStatus::Idle,
            default_path: String::new(),
            config_etag: String::new(),
            staged_default: None,
        }
    }
}

/// The selection after moving `current` by `delta` in a list of `len` rows:
/// clamped at the first row going up and at the last row going down.
pub open spec fn moved(current: int, delta: int, len: int) -> int {
    let last = if len > 0 {
        len - 1
    } else {
        0
    };
    if delta < 0 {
        if current + delta < 0 {
            0
        } else {
            current + delta
        }
    } else {
        let up = if current + delta > usize::MAX {
            usize::MAX as int
        } else {
            current + delta
        };
        if up < last {
            up
        } else {
            last
        }
    }
}

impl BootEntriesModel {
    pub closed spec fn entries_view(&self) -> Seq<GrubMenuEntryDto> {
        self.entries@
    }

    pub closed spec fn etag_view(&self) -> Seq<char> {
        self.etag@
    }

    pub closed spec fn error_view(&self) -> Seq<char> {
        self.error@
    }

    pub closed spec fn selection(&self) -> Option<usize> {
        self.selected_index
    }

    pub closed spec fn status_view(&self) -> BootEntriesStatus {
        self.status
    }

    pub closed spec fn default_view(&self) -> Seq<char> {
        self.default_path@
    }

    pub closed spec fn config_etag_view(&self) -> Seq<char> {
        self.config_etag@
    }

    pub closed spec fn staged(&self) -> Option<String> {
        self.staged_default
    }

    /// The selected row, if the selection points at one.
    pub open spec fn selected_entry(&self) -> Option<GrubMenuEntryDto> {
        match self.selection() {
            Some(i) => if i < self.entries_view().len() {
                Some(self.entries_view()[i as int])
            } else {
                None
            },
            None => None,
        }
    }

    /// The selected row can be staged as the new default: it is bootable,
    /// not already the default, and both versions are known.
    pub open spec fn can_stage(&self) -> bool {
        &&& self.selected_entry() is Some
        &&& !self.selected_entry()->0.is_submenu
        &&& self.selected_entry()->0.path@ != self.default_view()
        &&& self.etag_view().len() > 0
        &&& self.config_etag_view().len() > 0
    }

    /// Enter the loading state and drop the previous menu, its version, the
    /// selection and any staged default.
    pub fn begin_load(&mut self)
        ensures
            final(self).entries_view().len() == 0,
            final(self).etag_view().len() == 0,
            final(self).error_view().len() == 0,
            final(self).selection() is None,
            final(self).staged() is None,
            final(self).status_view() == BootEntriesStatus::Loading,
            final(self).default_view() == old(self).default_view(),
            final(self).config_etag_view() == old(self).config_etag_view(),
    {
        self.entries.clear();
        self.etag = String::new();
        self.error = String::new();
        self.selected_index = None;
        self.staged_default = None;
        self.status = BootEntriesStatus::Loading;
    }

    /// Store a successful load and select its first row.
    pub fn finish_load(&mut self, entries: Vec<GrubMenuEntryDto>, etag: String)
        ensures
            final(self).entries_view() == entries@,
            final(self).etag_view() == etag@,
            final(self).error_view().len() == 0,
            final(self).selection() == (if entries@.len() == 0 {
                None::<usize>
            } else {
                Some(0usize)
            }),
            final(self).status_view() == (if entries@.len() == 0 {
                BootEntriesStatus::Empty
            } else {
                BootEntriesStatus::Ready
            }),
            final(self).staged() is None,
            final(self).default_view() == old(self).default_view(),
            final(self).config_etag_view() == old(self).config_etag_view(),
    {
        if entries.len() == 0 {
            self.selected_index = None;
            self.status = BootEntriesStatus::Empty;
        } else {
            self.selected_index = Some(0);
            self.status = BootEntriesStatus::Ready;
        }
        self.entries = entries;
        self.etag = etag;
        self.error = String::new();
        self.staged_default = None;
    }

    /// Store a load error and drop every previously loaded row.
    pub fn fail_load(&mut self, error: String)
        ensures
            final(self).entries_view().len() == 0,
            final(self).etag_view().len() == 0,
            final(self).error_view() == error@,
            final(self).selection() is None,
            final(self).staged() is None,
            final(self).status_view() == BootEntriesStatus::Error,
            final(self).default_view() == old(self).default_view(),
            final(self).config_etag_view() == old(self).config_etag_view(),
    {
        self.entries.clear();
        self.etag = String::new();
        self.selected_index = None;
        self.staged_default = None;
        self.error = error;
        self.status = BootEntriesStatus::Error;
    }

    /// Select a row by index when it exists; otherwise nothing changes.
    pub fn select(&mut self, index: usize)
        ensures
            final(self).selection() == (if index < old(self).entries_view().len() {
                Some(index)
            } else {
                old(self).selection()
            }),
            final(self).entries_view() == old(self).entries_view(),
            final(self).etag_view() == old(self).etag_view(),
            final(self).error_view() == old(self).error_view(),
            final(self).status_view() == old(self).status_view(),
            final(self).default_view() == old(self).default_view(),
            final(self).config_etag_view() == old(self).config_etag_view(),
            final(self).staged() == old(self).staged(),
    {
        if index < self.entries.len() {
            self.selected_index = Some(index);
        }
    }

    /// Move the selection by a keyboard delta, clamped at the list edges.
    /// Without a selection nothing changes.
    pub fn move_selection(&mut self, delta: isize)
        ensures
            final(self).selection() == (match old(self).selection() {
                Some(c) => Some(
                    moved(c as int, delta as int, old(self).entries_view().len() as int) as usize,
                ),
                None => None,
            }),
            final(self).entries_view() == old(self).entries_view(),
            final(self).etag_view() == old(self).etag_view(),
            final(self).error_view() == old(self).error_view(),
            final(self).status_view() == old(self).status_view(),
            final(self).default_view() == old(self).default_view(),
            final(self).config_etag_view() == old(self).config_etag_view(),
            final(self).staged() == old(self).staged(),
    {
        let current = match self.selected_index {
            Some(c) => c,
            None => return,
        };
        let last = if self.entries.len() > 0 {
            self.entries.len() - 1
        } else {
            0
        };
        let next = if delta < 0 {
            let back: usize = if delta == isize::MIN {
                (isize::MAX as usize) + 1
            } else {
                (-delta) as usize
            };
            if current < back {
                0
            } else {
                current - back
            }
        } else {
            let fwd = delta as usize;
            let up = if current > usize::MAX - fwd {
                usize::MAX
            } else {
                current + fwd
            };
            if up < last {
                up
            } else {
                last
            }
        };
        self.selected_index = Some(next);
    }

    /// Store the current `GRUB_DEFAULT` and the version of
    /// `/etc/default/grub`; a staged default is dropped, its base changed.
    pub fn set_config_state(&mut self, default_path: String, config_etag: String)
        ensures
            final(self).default_view() == default_path@,
            final(self).config_etag_view() == config_etag@,
            final(self).staged() is None,
            final(self).entries_view() == old(self).entries_view(),
            final(self).etag_view() == old(self).etag_view(),
            final(self).error_view() == old(self).error_view(),
            final(self).selection() == old(self).selection(),
            final(self).status_view() == old(self).status_view(),
    {
        self.default_path = default_path;
        self.config_etag = config_etag;
        self.staged_default = None;
    }

    /// Stage the selected row as the persistent default. Returns whether it
    /// was staged; when it is not, nothing changes.
    pub fn stage_selected_as_default(&mut self) -> (staged: bool)
        ensures
            staged == old(self).can_stage(),
            staged ==> (final(self).staged() matches Some(p) && p@
                == old(self).selected_entry()->0.path@),
            !staged ==> final(self).staged() == old(self).staged(),
            final(self).entries_view() == old(self).entries_view(),
            final(self).etag_view() == old(self).etag_view(),
            final(self).error_view() == old(self).error_view(),
            final(self).selection() == old(self).selection(),
            final(self).status_view() == old(self).status_view(),
            final(self).default_view() == old(self).default_view(),
            final(self).config_etag_view() == old(self).config_etag_view(),
    {
        let i = match self.selected_index {
            Some(i) => i,
            None => return false,
        };
        if i >= self.entries.len() {
            return false;
        }
        let entry = &self.entries[i];
        if entry.is_submenu || entry.path == self.default_path || self.etag.as_str().is_empty()
            || self.config_etag.as_str().is_empty() {
            return false;
        }
        self.staged_default = Some(entry.path.clone());
        true
    }

    /// Drop the staged default.
    pub fn discard_default_change(&mut self)
        ensures
            final(self).staged() is None,
            final(self).entries_view() == old(self).entries_view(),
            final(self).etag_view() == old(self).etag_view(),
            final(self).error_view() == old(self).error_view(),
            final(self).selection() == old(self).selection(),
            final(self).status_view() == old(self).status_view(),
            final(self).default_view() == old(self).default_view(),
            final(self).config_etag_view() == old(self).config_etag_view(),
    {
        self.staged_default = None;
    }

    /// The number of staged changes: one when a default is staged.
    pub fn pending_count(&self) -> (n: i32)
        ensures
            n == (if self.staged() is Some {
                1i32
            } else {
                0i32
            }),
    {
        if self.staged_default.is_some() {
            1
        } else {
            0
        }
    }

    /// The staged default, or the persisted one when nothing is staged.
    pub fn effective_default(&self) -> (d: &str)
        ensures
            d@ == (match self.staged() {
                Some(p) => p@,
                None => self.default_view(),
            }),
    {
        match &self.staged_default {
            Some(p) => p.as_str(),
            None => self.default_path.as_str(),
        }
    }

    /// The versioned request for the staged default, if one is staged.
    pub fn pending_default_request(&self) -> (r: Option<GrubDefaultRequest>)
        ensures
            r is Some <==> self.staged() is Some,
            r matches Some(q) ==> q.previous_path@ == self.default_view() && q.selected_path@
                == self.staged()->0@ && q.menu_etag@ == self.etag_view() && q.config_etag@
                == self.config_etag_view(),
    {
        match &self.staged_default {
            Some(p) => Some(
                GrubDefaultRequest {
                    previous_path: self.default_path.clone(),
                    selected_path: p.clone(),
                    menu_etag: self.etag.clone(),
                    config_etag: self.config_etag.clone(),
                },
            ),
            None => None,
        }
    }

    /// The current load status.
    pub fn status(&self) -> (s: BootEntriesStatus)
        ensures
            s == self.status_view(),
    {
        self.status
    }

    /// All loaded rows in menu order.
    pub fn entries(&self) -> (e: &[GrubMenuEntryDto])
        ensures
            e@ == self.entries_view(),
    {
        self.entries.as_slice()
    }

    /// The version of the loaded `grub.cfg`.
    pub fn etag(&self) -> (e: &str)
        ensures
            e@ == self.etag_view(),
    {
        self.etag.as_str()
    }

    /// The current load error, or an empty string.
    pub fn error(&self) -> (e: &str)
        ensures
            e@ == self.error_view(),
    {
        self.error.as_str()
    }

    /// The selected row, if the selection points at one.
    pub fn selected(&self) -> (r: Option<&GrubMenuEntryDto>)
        ensures
            match r {
                Some(e) => self.selected_entry() == Some(*e),
                None => self.selected_entry() is None,
            },
    {
        match self.selected_index {
            Some(i) => if i < self.entries.len() {
                Some(&self.entries[i])
            } else {
                None
            },
            None => None,
        }
    }

    /// The selected index, or -1 without a selection (or one too large for i32).
    pub fn selected_index(&self) -> (r: i32)
        ensures
            r == (match self.selection() {
                Some(i) => if i <= i32::MAX {
                    i as i32
                } else {
                    -1i32
                },
                None => -1i32,
            }),
    {
        match self.selected_index {
            Some(i) => if i <= (i32::MAX as usize) {
                i as i32
            } else {
                -1
            },
            None => -1,
        }
    }
}

} // verus!
