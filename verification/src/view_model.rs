//! The GUI's view of the live boot configuration: what was loaded from the
//! daemon, whether it may be written back, and which daemon call a write
//! becomes. The daemon calls themselves are the GUI's I/O.

use vstd::prelude::*;
use vstd::string::StringExecFns;
use crate::systemd_boot::{opt_view, EntryRecord};
use crate::text::{chars_of, contains_exec, contains_seq, lemma_text_lt_asym, lemma_text_lt_trans, text_less, text_lt};

verus! {

/// What the GUI reads for the active backend.
#[derive(Debug, Clone, Copy, PartialEq, Eq, Structural)]
pub enum LoadSource {
    /// systemd-boot: the loader entries and the `loader.conf` ETag.
    LoaderEntries,
    /// UKI: the kernel command line and its ETag.
    KernelCmdline,
    /// GRUB: the `/etc/default/grub` key-value map and its ETag.
    GrubConfig,
}

/// The source for a backend name: one mentioning `systemd-boot` reads the
/// loader entries, one mentioning `uki` the kernel command line, any other
/// the GRUB configuration.
pub open spec fn source_for(active_backend: Seq<char>) -> LoadSource {
    if contains_seq(active_backend, "systemd-boot"@) {
        LoadSource::LoaderEntries
    } else if contains_seq(active_backend, "uki"@) {
        LoadSource::KernelCmdline
    } else {
        LoadSource::GrubConfig
    }
}

/// The daemon call an edit becomes.
#[derive(Debug, Clone, Copy, PartialEq, Eq, Structural)]
pub enum EditRoute {
    /// UKI: the key is a whole kernel parameter to add.
    AddKernelParam,
    /// Any other backend: set the key to the value.
    SetValue,
}

/// A daemon call the GUI makes; the GUI performs it and shows the reply.
#[derive(Debug, Clone, PartialEq, Eq)]
pub enum BackendCall {
    /// Set a GRUB key, guarded by the configuration's ETag.
    SetValue { key: String, value: String, etag: String },
    /// Add a UKI kernel parameter, guarded by the command line's ETag.
    AddKernelParam { param: String, etag: String },
    /// Remove a UKI kernel parameter, guarded by the command line's ETag.
    RemoveKernelParam { param: String, etag: String },
    /// Make a systemd-boot entry the default, guarded by `loader.conf`'s ETag.
    SetLoaderDefault { id: String, etag: String },
    /// Restore a snapshot, guarded by its primary target's ETag.
    RestoreSnapshot { id: String, etag: String },
    /// Regenerate `grub.cfg`.
    RebuildGrubConfig,
    /// Read the GRUB menu and its ETag.
    ListGrubEntries,
    /// Make a GRUB menu item the default, guarded by both versions.
    SetGrubDefault { selected_path: String, menu_etag: String, config_etag: String },
    /// Back up the Secure Boot variables (an empty target: the daemon picks one).
    BackupNvram { target: String },
    /// Sign a UKI and enroll the MOK (an empty path: the daemon picks it).
    SignAndEnrollUki { path: String },
    /// List the snapshots, newest first.
    ListSnapshots,
}

/// One editable row of the configuration page.
#[derive(Debug, Clone, PartialEq, Eq)]
pub struct GrubEntryRow {
    pub key: String,
    pub value: String,
    /// The value as loaded, to tell an edit from the stored value.
    pub original_value: String,
    pub is_modified: bool,
}

/// A row's key and value, as texts.
pub open spec fn row_view(r: GrubEntryRow) -> (Seq<char>, Seq<char>) {
    (r.key@, r.value@)
}

/// The rows' keys and values, as texts.
pub open spec fn row_views(v: Seq<GrubEntryRow>) -> Seq<(Seq<char>, Seq<char>)> {
    v.map_values(|r: GrubEntryRow| row_view(r))
}

/// The rows are in key order.
pub open spec fn keys_ordered(v: Seq<GrubEntryRow>) -> bool {
    forall|a: int, b: int| 0 <= a < b < v.len() ==> !text_lt(#[trigger] v[b].key@, #[trigger] v[a].key@)
}

/// The loaded view state.
#[derive(Debug, Clone)]
pub struct ViewModel {
    entries: Vec<(String, String)>,
    etag: String,
    active_backend: String,
    loader_entries: Vec<EntryRecord>,
    cmdline_params: Vec<String>,
    state_ready: bool,
}

/// The message a write is refused with before the state was (re)loaded.
pub const NOT_READY_MESSAGE: &'static str = "view model is not ready for writes; reload live state first";

impl ViewModel {
    /// Whether the loaded state may be written back.
    pub closed spec fn ready(&self) -> bool {
        self.state_ready
    }

    /// The rows shown, as texts.
    pub closed spec fn rows(&self) -> Seq<(Seq<char>, Seq<char>)> {
        self.entries@.map_values(|p: (String, String)| (p.0@, p.1@))
    }

    /// The ETag of what was loaded.
    pub closed spec fn etag_text(&self) -> Seq<char> {
        self.etag@
    }

    /// The active backend's name.
    pub closed spec fn backend_name(&self) -> Seq<char> {
        self.active_backend@
    }

    /// The loaded systemd-boot entries.
    pub closed spec fn loaded_entries(&self) -> Seq<EntryRecord> {
        self.loader_entries@
    }

    /// The loaded kernel parameters, as texts.
    pub closed spec fn params(&self) -> Seq<Seq<char>> {
        self.cmdline_params@.map_values(|p: String| p@)
    }

    /// Nothing loaded.
    pub closed spec fn is_cleared(&self) -> bool {
        &&& self.entries@.len() == 0
        &&& self.etag@.len() == 0
        &&& self.active_backend@.len() == 0
        &&& self.loader_entries@.len() == 0
        &&& self.cmdline_params@.len() == 0
        &&& !self.state_ready
    }

    /// An empty view, not ready for writes.
    pub fn new() -> (vm: Self)
        ensures
            vm.is_cleared(),
    {
        ViewModel {
            entries: Vec::new(),
            etag: String::new(),
            active_backend: String::new(),
            loader_entries: Vec::new(),
            cmdline_params: Vec::new(),
            state_ready: false,
        }
    }

    /// Forget everything loaded: a load starts from here, so a failed load
    /// leaves nothing to write back.
    pub fn invalidate_loaded_state(&mut self)
        ensures
            final(self).is_cleared(),
    {
        self.entries = Vec::new();
        self.etag = String::new();
        self.active_backend = String::new();
        self.loader_entries = Vec::new();
        self.cmdline_params = Vec::new();
        self.state_ready = false;
    }

    /// Writes are allowed only on a fully loaded state with an ETag.
    pub fn require_loaded_state(&self) -> (r: Result<(), String>)
        ensures
            r is Ok <==> (self.ready() && self.etag_text().len() > 0),
            r matches Err(m) ==> m@ == NOT_READY_MESSAGE@,
    {
        if self.state_ready && self.etag.unicode_len() > 0 {
            Ok(())
        } else {
            Err(String::from_str(NOT_READY_MESSAGE))
        }
    }

    /// What to read for the active backend.
    pub fn load_source(active_backend: &str) -> (s: LoadSource)
        ensures
            s == source_for(active_backend@),
    {
        let a = chars_of(active_backend);
        let sd = chars_of("systemd-boot");
        let uki = chars_of("uki");
        if contains_exec(a.as_slice(), sd.as_slice()) {
            LoadSource::LoaderEntries
        } else if contains_exec(a.as_slice(), uki.as_slice()) {
            LoadSource::KernelCmdline
        } else {
            LoadSource::GrubConfig
        }
    }

    /// Install a systemd-boot load: one row per entry (its id and title,
    /// empty without one), and the `loader.conf` ETag.
    pub fn finish_load_loader_entries(&mut self, active_backend: String, loader_entries: Vec<EntryRecord>, etag: String)
        ensures
            final(self).ready(),
            final(self).backend_name() == active_backend@,
            final(self).etag_text() == etag@,
            final(self).loaded_entries() == loader_entries@,
            final(self).params().len() == 0,
            final(self).rows().len() == loader_entries@.len(),
            forall|i: int|
                0 <= i < loader_entries@.len() ==> (#[trigger] final(self).rows()[i]).0 == loader_entries@[i].id@
                    && final(self).rows()[i].1 == match opt_view(loader_entries@[i].title) {
                    Some(t) => t,
                    None => Seq::empty(),
                },
    {
        let mut rows: Vec<(String, String)> = Vec::new();
        let mut i: usize = 0;
        while i < loader_entries.len()
            invariant
                i <= loader_entries@.len(),
                rows@.len() == i,
                forall|k: int|
                    0 <= k < i ==> (#[trigger] rows@[k]).0@ == loader_entries@[k].id@ && rows@[k].1@ == match opt_view(
                        loader_entries@[k].title,
                    ) {
                        Some(t) => t,
                        None => Seq::empty(),
                    },
            decreases loader_entries@.len() - i,
        {
            let e = &loader_entries[i];
            let title = match &e.title {
                Some(t) => t.clone(),
                None => String::new(),
            };
            rows.push((e.id.clone(), title));
            i = i + 1;
        }
        self.entries = rows;
        self.etag = etag;
        self.active_backend = active_backend;
        self.loader_entries = loader_entries;
        self.cmdline_params = Vec::new();
        self.state_ready = true;
        assert(self.params() =~= Seq::<Seq<char>>::empty());
    }

    /// Install a UKI load: one row per kernel parameter (with an empty
    /// value), the parameters, and the command line's ETag.
    pub fn finish_load_kernel_cmdline(&mut self, active_backend: String, params: Vec<String>, etag: String)
        ensures
            final(self).ready(),
            final(self).backend_name() == active_backend@,
            final(self).etag_text() == etag@,
            final(self).params() == params@.map_values(|p: String| p@),
            final(self).loaded_entries().len() == 0,
            final(self).rows().len() == params@.len(),
            forall|i: int|
                0 <= i < params@.len() ==> (#[trigger] final(self).rows()[i]).0 == params@[i]@
                    && final(self).rows()[i].1.len() == 0,
    {
        let mut rows: Vec<(String, String)> = Vec::new();
        let mut i: usize = 0;
        while i < params.len()
            invariant
                i <= params@.len(),
                rows@.len() == i,
                forall|k: int| 0 <= k < i ==> (#[trigger] rows@[k]).0@ == params@[k]@ && rows@[k].1@.len() == 0,
            decreases params@.len() - i,
        {
            rows.push((params[i].clone(), String::new()));
            i = i + 1;
        }
        self.entries = rows;
        self.etag = etag;
        self.active_backend = active_backend;
        self.loader_entries = Vec::new();
        self.cmdline_params = params;
        self.state_ready = true;
    }

    /// Install a GRUB load: the key-value map and the file's ETag.
    pub fn finish_load_grub(&mut self, active_backend: String, entries: Vec<(String, String)>, etag: String)
        ensures
            final(self).ready(),
            final(self).backend_name() == active_backend@,
            final(self).etag_text() == etag@,
            final(self).rows() == entries@.map_values(|p: (String, String)| (p.0@, p.1@)),
            final(self).loaded_entries().len() == 0,
            final(self).params().len() == 0,
    {
        self.entries = entries;
        self.etag = etag;
        self.active_backend = active_backend;
        self.loader_entries = Vec::new();
        self.cmdline_params = Vec::new();
        self.state_ready = true;
        assert(self.params() =~= Seq::<Seq<char>>::empty());
    }

    /// Rows shown: key and value (entry id and title; parameter and empty).
    pub fn entries(&self) -> (r: &Vec<(String, String)>)
        ensures
            r@.map_values(|p: (String, String)| (p.0@, p.1@)) == self.rows(),
    {
        &self.entries
    }

    /// ETag of what was loaded; every write carries it.
    pub fn etag(&self) -> (r: &str)
        ensures
            r@ == self.etag_text(),
    {
        self.etag.as_str()
    }

    /// The daemon's active backend name.
    pub fn active_backend(&self) -> (r: &str)
        ensures
            r@ == self.backend_name(),
    {
        self.active_backend.as_str()
    }

    /// systemd-boot entries, when that backend is active.
    pub fn loader_entries(&self) -> (r: &Vec<EntryRecord>)
        ensures
            r@ == self.loaded_entries(),
    {
        &self.loader_entries
    }

    /// Kernel parameters, when the UKI backend is active.
    pub fn cmdline_params(&self) -> (r: &Vec<String>)
        ensures
            r@.map_values(|p: String| p@) == self.params(),
    {
        &self.cmdline_params
    }

    /// The daemon call an edit becomes: adding a kernel parameter on a UKI
    /// backend, setting a value on any other.
    pub fn edit_route(&self) -> (r: EditRoute)
        ensures
            r == (if contains_seq(self.backend_name(), "uki"@) {
                EditRoute::AddKernelParam
            } else {
                EditRoute::SetValue
            }),
    {
        let a = chars_of(self.active_backend.as_str());
        let uki = chars_of("uki");
        if contains_exec(a.as_slice(), uki.as_slice()) {
            EditRoute::AddKernelParam
        } else {
            EditRoute::SetValue
        }
    }

    /// The configuration page's rows: every loaded pair, in key order,
    /// each unmodified (its original value is its value).
    pub fn entry_rows(&self) -> (rows: Vec<GrubEntryRow>)
        ensures
            row_views(rows@).to_multiset() == self.rows().to_multiset(),
            keys_ordered(rows@),
            forall|i: int|
                0 <= i < rows@.len() ==> (#[trigger] rows@[i]).original_value@ == rows@[i].value@
                    && !rows@[i].is_modified,
    {
        let ghost orig = self.rows();
        let n = self.entries.len();
        let mut out: Vec<GrubEntryRow> = Vec::new();
        let mut i: usize = 0;
        proof {
            assert(row_views(out@) =~= orig.take(0));
        }
        while i < n
            invariant
                i <= n,
                n == self.entries@.len(),
                orig == self.rows(),
                keys_ordered(out@),
                forall|k: int|
                    0 <= k < out@.len() ==> (#[trigger] out@[k]).original_value@ == out@[k].value@
                        && !out@[k].is_modified,
                row_views(out@).to_multiset() == orig.take(i as int).to_multiset(),
            decreases n - i,
        {
            let x = GrubEntryRow {
                key: self.entries[i].0.clone(),
                value: self.entries[i].1.clone(),
                original_value: self.entries[i].1.clone(),
                is_modified: false,
            };
            assert(row_view(x) == orig[i as int]);
            let mut p: usize = 0;
            while p < out.len() && !text_less(x.key.as_str(), out[p].key.as_str())
                invariant
                    p <= out@.len(),
                    forall|k: int| 0 <= k < p ==> !text_lt(x.key@, (#[trigger] out@[k]).key@),
                decreases out@.len() - p,
            {
                p = p + 1;
            }
            let ghost old_out = out@;
            proof {
                assert forall|k: int| p <= k < old_out.len() implies !text_lt(
                    (#[trigger] old_out[k]).key@,
                    x.key@,
                ) by {
                    if text_lt(old_out[k].key@, x.key@) {
                        // x sorts before old_out[p], so old_out[k] would sort before old_out[p]
                        lemma_text_lt_trans(old_out[k].key@, x.key@, old_out[p as int].key@);
                        lemma_text_lt_asym(old_out[k].key@, old_out[p as int].key@);
                    }
                }
            }
            out.insert(p, x);
            proof {
                assert(row_views(out@) =~= row_views(old_out).insert(p as int, row_view(x)));
                vstd::seq_lib::to_multiset_insert(row_views(old_out), p as int, row_view(x));
                assert(orig.take(i + 1) =~= orig.take(i as int).push(row_view(x)));
                vstd::seq_lib::to_multiset_build(orig.take(i as int), row_view(x));
                assert forall|a: int, b: int| 0 <= a < b < out@.len() implies !text_lt(
                    #[trigger] out@[b].key@,
                    #[trigger] out@[a].key@,
                ) by {
                    if a < p && b == p {
                    } else if a == p {
                        assert(out@[b] == old_out[b - 1]);
                    } else if b < p {
                        assert(out@[a] == old_out[a]);
                        assert(out@[b] == old_out[b]);
                    } else if a < p && b > p {
                        assert(out@[b] == old_out[b - 1]);
                        assert(out@[a] == old_out[a]);
                    } else {
                        assert(out@[a] == old_out[a - 1]);
                        assert(out@[b] == old_out[b - 1]);
                    }
                }
            }
            i = i + 1;
        }
        assert(orig.take(n as int) =~= orig);
        out
    }

    /// The call a single edit becomes, on a loaded state only: on a UKI
    /// backend `key` is a whole kernel parameter to add (the value is not
    /// used), on any other backend `key` is set to `value`. Either carries
    /// the loaded ETag.
    pub fn commit_edit(&self, key: &str, value: &str) -> (r: Result<BackendCall, String>)
        ensures
            r is Ok <==> (self.ready() && self.etag_text().len() > 0),
            r matches Err(m) ==> m@ == NOT_READY_MESSAGE@,
            r matches Ok(c) ==> if contains_seq(self.backend_name(), "uki"@) {
                c matches BackendCall::AddKernelParam { param, etag } && param@ == key@ && etag@
                    == self.etag_text()
            } else {
                c matches BackendCall::SetValue { key: k, value: v, etag } && k@ == key@ && v@ == value@
                    && etag@ == self.etag_text()
            },
    {
        self.require_loaded_state()?;
        match self.edit_route() {
            EditRoute::AddKernelParam => Ok(
                BackendCall::AddKernelParam { param: String::from_str(key), etag: self.etag.clone() },
            ),
            EditRoute::SetValue => Ok(
                BackendCall::SetValue {
                    key: String::from_str(key),
                    value: String::from_str(value),
                    etag: self.etag.clone(),
                },
            ),
        }
    }

    /// Making a systemd-boot entry the default, on a loaded state only,
    /// with the loaded ETag.
    pub fn set_default_entry(&self, id: &str) -> (r: Result<BackendCall, String>)
        ensures
            r is Ok <==> (self.ready() && self.etag_text().len() > 0),
            r matches Err(m) ==> m@ == NOT_READY_MESSAGE@,
            r matches Ok(c) ==> c matches BackendCall::SetLoaderDefault { id: i, etag } && i@ == id@ && etag@
                == self.etag_text(),
    {
        self.require_loaded_state()?;
        Ok(BackendCall::SetLoaderDefault { id: String::from_str(id), etag: self.etag.clone() })
    }

    /// Removing a UKI kernel parameter, on a loaded state only, with the
    /// loaded ETag.
    pub fn remove_kernel_param(&self, param: &str) -> (r: Result<BackendCall, String>)
        ensures
            r is Ok <==> (self.ready() && self.etag_text().len() > 0),
            r matches Err(m) ==> m@ == NOT_READY_MESSAGE@,
            r matches Ok(c) ==> c matches BackendCall::RemoveKernelParam { param: p, etag } && p@ == param@
                && etag@ == self.etag_text(),
    {
        self.require_loaded_state()?;
        Ok(BackendCall::RemoveKernelParam { param: String::from_str(param), etag: self.etag.clone() })
    }

    /// Restoring a snapshot, on a loaded state only, with the ETag shown
    /// before confirmation.
    pub fn restore_snapshot(&self, id: &str) -> (r: Result<BackendCall, String>)
        ensures
            r is Ok <==> (self.ready() && self.etag_text().len() > 0),
            r matches Err(m) ==> m@ == NOT_READY_MESSAGE@,
            r matches Ok(c) ==> c matches BackendCall::RestoreSnapshot { id: i, etag } && i@ == id@ && etag@
                == self.etag_text(),
    {
        self.require_loaded_state()?;
        Ok(BackendCall::RestoreSnapshot { id: String::from_str(id), etag: self.etag.clone() })
    }

    /// Regenerating `grub.cfg` needs no loaded state.
    pub fn rebuild_grub(&self) -> (c: BackendCall)
        ensures
            c == BackendCall::RebuildGrubConfig,
    {
        BackendCall::RebuildGrubConfig
    }

    /// Reading the GRUB menu needs no loaded state.
    pub fn list_grub_entries(&self) -> (c: BackendCall)
        ensures
            c == BackendCall::ListGrubEntries,
    {
        BackendCall::ListGrubEntries
    }

    /// Making a GRUB menu item the default carries the two versions the
    /// caller staged it against, not the view's.
    pub fn set_grub_default(&self, selected_path: &str, menu_etag: &str, config_etag: &str) -> (c: BackendCall)
        ensures
            c matches BackendCall::SetGrubDefault { selected_path: p, menu_etag: m, config_etag: g } && p@
                == selected_path@ && m@ == menu_etag@ && g@ == config_etag@,
    {
        BackendCall::SetGrubDefault {
            selected_path: String::from_str(selected_path),
            menu_etag: String::from_str(menu_etag),
            config_etag: String::from_str(config_etag),
        }
    }

    /// Backing up the Secure Boot variables to the daemon's default place.
    pub fn backup_nvram(&self) -> (c: BackendCall)
        ensures
            c matches BackendCall::BackupNvram { target } && target@.len() == 0,
    {
        BackendCall::BackupNvram { target: String::new() }
    }

    /// Signing the daemon's default UKI and enrolling the MOK.
    pub fn enroll_mok(&self) -> (c: BackendCall)
        ensures
            c matches BackendCall::SignAndEnrollUki { path } && path@.len() == 0,
    {
        BackendCall::SignAndEnrollUki { path: String::new() }
    }

    /// Listing the snapshots needs no loaded state.
    pub fn list_snapshots(&self) -> (c: BackendCall)
        ensures
            c == BackendCall::ListSnapshots,
    {
        BackendCall::ListSnapshots
    }
}

/// A daemon read the GUI makes while loading.
#[derive(Debug, Clone, Copy, PartialEq, Eq, Structural)]
pub enum LoadCall {
    /// The name of the active backend.
    GetActiveBackend,
    /// The systemd-boot loader entries.
    ListLoaderEntries,
    /// The ETag of `loader.conf`.
    GetLoaderConfEtag,
    /// The UKI kernel command line and its ETag.
    ReadKernelCmdline,
    /// The GRUB key-value map and its ETag.
    ReadConfig,
}

/// What a read of the load gave: its value or the daemon's error message.
#[derive(Debug)]
pub enum LoadEvent {
    ActiveBackend(Result<String, String>),
    LoaderEntries(Result<Vec<EntryRecord>, String>),
    LoaderConfEtag(Result<String, String>),
    KernelCmdline(Result<(Vec<String>, String), String>),
    GrubConfig(Result<(Vec<(String, String)>, String), String>),
}

/// What the GUI is to do next while loading.
#[derive(Debug)]
pub enum LoadAction {
    /// Make this read and report what it gave.
    Read(LoadCall),
    /// The load is over: the view is loaded, or the error and a cleared view.
    Done(Result<(), String>),
}

/// Where a load stands.
#[derive(Debug, Clone, Copy, PartialEq, Eq, Structural)]
pub enum LoadStep {
    AwaitBackend,
    AwaitLoaderEntries,
    AwaitLoaderEtag,
    AwaitCmdline,
    AwaitGrub,
    Done,
}

/// The read that follows the backend's name.
pub open spec fn read_for(source: LoadSource) -> LoadCall {
    match source {
        LoadSource::LoaderEntries => LoadCall::ListLoaderEntries,
        LoadSource::KernelCmdline => LoadCall::ReadKernelCmdline,
        LoadSource::GrubConfig => LoadCall::ReadConfig,
    }
}

/// The step that awaits that read.
pub open spec fn step_for(source: LoadSource) -> LoadStep {
    match source {
        LoadSource::LoaderEntries => LoadStep::AwaitLoaderEntries,
        LoadSource::KernelCmdline => LoadStep::AwaitCmdline,
        LoadSource::GrubConfig => LoadStep::AwaitGrub,
    }
}

/// The refusal of a read that the load did not ask for.
pub open spec fn load_protocol_error() -> Seq<char> {
    "load received an unexpected reply"@
}

/// One (re)load of the view: the backend's name, then what that backend
/// reads. The view is cleared when the load starts and stays cleared
/// unless every read succeeds.
#[derive(Debug)]
pub struct ViewLoad {
    step: LoadStep,
    backend: String,
    pending_entries: Vec<EntryRecord>,
}

impl ViewLoad {
    /// Where the load stands.
    pub closed spec fn step(&self) -> LoadStep {
        self.step
    }

    /// The backend's name, once read.
    pub closed spec fn backend_text(&self) -> Seq<char> {
        self.backend@
    }

    /// The loader entries read, before their ETag.
    pub closed spec fn pending(&self) -> Seq<EntryRecord> {
        self.pending_entries@
    }

    /// Start loading into `vm`: everything loaded before is forgotten, and
    /// the first read is the backend's name.
    pub fn start(vm: &mut ViewModel) -> (r: (Self, LoadAction))
        ensures
            final(vm).is_cleared(),
            r.0.step() == LoadStep::AwaitBackend,
            r.1 matches LoadAction::Read(c) && c == LoadCall::GetActiveBackend,
    {
        vm.invalidate_loaded_state();
        (
            ViewLoad { step: LoadStep::AwaitBackend, backend: String::new(), pending_entries: Vec::new() },
            LoadAction::Read(LoadCall::GetActiveBackend),
        )
    }

    /// Take what the last read gave. A failed read ends the load with its
    /// message and a cleared view; the backend's name picks the next read;
    /// the last read of the backend fills the view. A reply the load did
    /// not ask for ends it with a cleared view too.
    pub fn advance(&mut self, vm: &mut ViewModel, ev: LoadEvent) -> (a: LoadAction)
        requires
            old(self).step() != LoadStep::Done ==> old(vm).is_cleared(),
        ensures
            final(self).step() != LoadStep::Done ==> final(vm).is_cleared(),
            a is Read ==> final(vm).is_cleared() && final(self).step() != LoadStep::Done,
            a matches LoadAction::Done(Err(_)) ==> final(vm).is_cleared() && final(self).step() == LoadStep::Done,
            a matches LoadAction::Done(Ok(())) ==> final(vm).ready() && final(self).step() == LoadStep::Done,
            match (old(self).step(), ev) {
                (LoadStep::AwaitBackend, LoadEvent::ActiveBackend(Ok(name))) => {
                    &&& final(self).step() == step_for(source_for(name@))
                    &&& final(self).backend_text() == name@
                    &&& a matches LoadAction::Read(c) && c == read_for(source_for(name@))
                },
                (LoadStep::AwaitLoaderEntries, LoadEvent::LoaderEntries(Ok(list))) => {
                    &&& final(self).step() == LoadStep::AwaitLoaderEtag
                    &&& final(self).backend_text() == old(self).backend_text()
                    &&& final(self).pending() == list@
                    &&& a matches LoadAction::Read(c) && c == LoadCall::GetLoaderConfEtag
                },
                (LoadStep::AwaitLoaderEtag, LoadEvent::LoaderConfEtag(Ok(etag))) => {
                    &&& a matches LoadAction::Done(Ok(()))
                    &&& final(vm).backend_name() == old(self).backend_text()
                    &&& final(vm).etag_text() == etag@
                    &&& final(vm).loaded_entries() == old(self).pending()
                    &&& final(vm).params().len() == 0
                    &&& final(vm).rows().len() == old(self).pending().len()
                },
                (LoadStep::AwaitCmdline, LoadEvent::KernelCmdline(Ok((params, etag)))) => {
                    &&& a matches LoadAction::Done(Ok(()))
                    &&& final(vm).backend_name() == old(self).backend_text()
                    &&& final(vm).etag_text() == etag@
                    &&& final(vm).params() == params@.map_values(|p: String| p@)
                    &&& final(vm).loaded_entries().len() == 0
                },
                (LoadStep::AwaitGrub, LoadEvent::GrubConfig(Ok((entries, etag)))) => {
                    &&& a matches LoadAction::Done(Ok(()))
                    &&& final(vm).backend_name() == old(self).backend_text()
                    &&& final(vm).etag_text() == etag@
                    &&& final(vm).rows() == entries@.map_values(|p: (String, String)| (p.0@, p.1@))
                    &&& final(vm).loaded_entries().len() == 0
                    &&& final(vm).params().len() == 0
                },
                (LoadStep::AwaitBackend, LoadEvent::ActiveBackend(Err(m)))
                | (LoadStep::AwaitLoaderEntries, LoadEvent::LoaderEntries(Err(m)))
                | (LoadStep::AwaitLoaderEtag, LoadEvent::LoaderConfEtag(Err(m)))
                | (LoadStep::AwaitCmdline, LoadEvent::KernelCmdline(Err(m)))
                | (LoadStep::AwaitGrub, LoadEvent::GrubConfig(Err(m))) => {
                    a matches LoadAction::Done(Err(x)) && x@ == m@
                },
                _ => a matches LoadAction::Done(Err(x)) && x@ == load_protocol_error(),
            },
    {
        let step = self.step;
        match (step, ev) {
            (LoadStep::AwaitBackend, LoadEvent::ActiveBackend(Ok(name))) => {
                let next = match ViewModel::load_source(name.as_str()) {
                    LoadSource::LoaderEntries => {
                        self.step = LoadStep::AwaitLoaderEntries;
                        LoadCall::ListLoaderEntries
                    },
                    LoadSource::KernelCmdline => {
                        self.step = LoadStep::AwaitCmdline;
                        LoadCall::ReadKernelCmdline
                    },
                    LoadSource::GrubConfig => {
                        self.step = LoadStep::AwaitGrub;
                        LoadCall::ReadConfig
                    },
                };
                self.backend = name;
                LoadAction::Read(next)
            },
            (LoadStep::AwaitLoaderEntries, LoadEvent::LoaderEntries(Ok(list))) => {
                self.pending_entries = list;
                self.step = LoadStep::AwaitLoaderEtag;
                LoadAction::Read(LoadCall::GetLoaderConfEtag)
            },
            (LoadStep::AwaitLoaderEtag, LoadEvent::LoaderConfEtag(Ok(etag))) => {
                self.step = LoadStep::Done;
                let mut backend = String::new();
                std::mem::swap(&mut backend, &mut self.backend);
                let mut list: Vec<EntryRecord> = Vec::new();
                std::mem::swap(&mut list, &mut self.pending_entries);
                vm.finish_load_loader_entries(backend, list, etag);
                LoadAction::Done(Ok(()))
            },
            (LoadStep::AwaitCmdline, LoadEvent::KernelCmdline(Ok((params, etag)))) => {
                self.step = LoadStep::Done;
                let mut backend = String::new();
                std::mem::swap(&mut backend, &mut self.backend);
                vm.finish_load_kernel_cmdline(backend, params, etag);
                LoadAction::Done(Ok(()))
            },
            (LoadStep::AwaitGrub, LoadEvent::GrubConfig(Ok((entries, etag)))) => {
                self.step = LoadStep::Done;
                let mut backend = String::new();
                std::mem::swap(&mut backend, &mut self.backend);
                vm.finish_load_grub(backend, entries, etag);
                LoadAction::Done(Ok(()))
            },
            (LoadStep::AwaitBackend, LoadEvent::ActiveBackend(Err(m)))
            | (LoadStep::AwaitLoaderEntries, LoadEvent::LoaderEntries(Err(m)))
            | (LoadStep::AwaitLoaderEtag, LoadEvent::LoaderConfEtag(Err(m)))
            | (LoadStep::AwaitCmdline, LoadEvent::KernelCmdline(Err(m)))
            | (LoadStep::AwaitGrub, LoadEvent::GrubConfig(Err(m))) => {
                self.step = LoadStep::Done;
                vm.invalidate_loaded_state();
                LoadAction::Done(Err(m))
            },
            _ => {
                self.step = LoadStep::Done;
                vm.invalidate_loaded_state();
                LoadAction::Done(Err(String::from_str("load received an unexpected reply")))
            },
        }
    }
}

/// Writes go through only after a successful load: a fresh or invalidated
/// view (the state every load starts from) is not ready for them.
pub proof fn lemma_writes_need_a_load(vm: ViewModel)
    ensures
        vm.is_cleared() ==> !vm.ready() && vm.etag_text().len() == 0 && vm.rows().len() == 0,
{
}

} // verus!
