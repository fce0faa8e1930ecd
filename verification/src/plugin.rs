//! One plugin and its life.
//!
//! A plugin is staged from its package, described by its manifest, bound to
//! its shared object, started, and in the end stopped:
//!
//! ```text
//! staged -> described -> bound (valid) <-> started -> spent
//! ```
//!
//! A plugin that was stopped may be started again, unless it is not
//! reusable or its termination was forced: then it is spent, and stays so.
//!
//! Every step that needs native code comes in two halves. The first half
//! (`entry_symbol`, `exit_symbol`, `hook_symbol`) looks at the plugin's state
//! and either refuses or names the symbol that the host must resolve. The
//! second half (`begin`, `terminate`, `get_hook`, ...) takes what the host
//! found and moves the plugin to its next state. A host that is refused in
//! the first half has no symbol to call, so no native code runs on a plugin
//! that is not ready for it.

use vstd::prelude::*;
use vstd::string::StringExecFns;
use crate::archive::{contained, plan_extraction, plan_of, steps_view, ExtractStep};
use crate::error::{ErrorView, IoFailure, VPluginError};
use crate::library::close_library;
use crate::workdir::{directory_of, plugin_directory};
use crate::manifest::{
    identifiable, is_identifiable, loaded_from, FaultView, ManifestFault, ManifestSource,
    MetadataView, PluginMetadata,
};

verus! {

/// The name of the entry point that [`Plugin::begin`] stands for.
pub const ENTRY_POINT: &'static str = "vplugin_init";

/// The name of the native destructor.
pub const EXIT_POINT: &'static str = "vplugin_exit";

/// What came of resolving and calling a plugin's entry point.
#[derive(Debug, Clone, Copy, PartialEq, Eq, Structural)]
pub enum EntryOutcome {
    /// The shared object has no such symbol; nothing was called.
    Unresolved,
    /// The entry point ran and returned this status.
    Returned(i32),
}

/// What came of resolving and calling a plugin's destructor.
#[derive(Debug, Clone, Copy, PartialEq, Eq, Structural)]
pub enum ExitOutcome {
    /// The shared object has no destructor; nothing was called.
    Unresolved,
    /// The destructor ran.
    Completed,
}

/// The runtime handle to one plugin.
#[derive(Debug)]
pub struct Plugin {
    metadata: PluginMetadata,
    filename: String,
    is_valid: bool,
    started: bool,
    reusable: bool,
    spent: bool,
    raw: Option<libloading::Library>,
}

/// A [`Plugin`] as a mathematical value.
pub struct PluginView {
    pub metadata: MetadataView,
    /// The path of the package that the plugin came from.
    pub filename: Seq<char>,
    /// Set once the manifest is loaded and the shared object is bound.
    pub valid: bool,
    /// Set once the entry point has reported success.
    pub started: bool,
    /// Whether the plugin may be started again after it was terminated.
    pub reusable: bool,
    /// Set once the plugin has given up its shared object for good.
    pub spent: bool,
    /// The handle to the shared object, while it is bound.
    pub library: Option<libloading::Library>,
}

impl View for Plugin {
    type V = PluginView;

    closed spec fn view(&self) -> PluginView {
        PluginView {
            metadata: self.metadata@,
            filename: self.filename@,
            valid: self.is_valid,
            started: self.started,
            reusable: self.reusable,
            spent: self.spent,
            library: self.raw,
        }
    }
}

/// Whether an executable result is the one that the model gives.
pub open spec fn agrees<T>(r: Result<T, VPluginError>, model: Result<T, ErrorView>) -> bool {
    match r {
        Ok(t) => model == Ok::<T, ErrorView>(t),
        Err(e) => model == Err::<T, ErrorView>(e@),
    }
}

/// Whether an executable result that carries a string is the one that the
/// model gives.
pub open spec fn agrees_text(r: Result<String, VPluginError>, model: Result<Seq<char>, ErrorView>)
    -> bool {
    match r {
        Ok(s) => model == Ok::<Seq<char>, ErrorView>(s@),
        Err(e) => model == Err::<Seq<char>, ErrorView>(e@),
    }
}

impl PluginView {
    /// What holds of every plugin: it is valid exactly while its shared
    /// object is bound, it is started only while valid, while valid its
    /// name identifies it, and once spent it is not valid.
    pub open spec fn well_formed(self) -> bool {
        &&& self.valid <==> self.library is Some
        &&& self.started ==> self.valid
        &&& self.valid ==> identifiable(self.metadata.name)
        &&& self.spent ==> !self.valid
    }

    /// Whether symbols may be looked up: the plugin is valid and started,
    /// and holds its shared object.
    pub open spec fn active(self) -> bool {
        self.valid && self.started && self.library is Some
    }

    /// A plugin that was staged from the package at `filename`: nothing is
    /// known of it yet.
    pub open spec fn staged(filename: Seq<char>) -> PluginView {
        PluginView {
            metadata: MetadataView {
                description: None,
                version: Seq::empty(),
                name: Seq::empty(),
                filename: Seq::empty(),
                objfile: Seq::empty(),
            },
            filename,
            valid: false,
            started: false,
            reusable: true,
            spent: false,
            library: None,
        }
    }

    /// The plugin after its manifest was loaded: described, and otherwise
    /// as before.
    pub open spec fn described(self, metadata: MetadataView) -> PluginView {
        PluginView { metadata, ..self }
    }

    /// Whether the plugin can be bound to a shared object: its name
    /// identifies it, it is not bound already, and it is not spent.
    pub open spec fn may_bind(self) -> bool {
        !self.valid && !self.spent && identifiable(self.metadata.name)
    }

    /// The plugin after binding: valid, not started, and holding the handle.
    pub open spec fn bound_to(self, library: libloading::Library) -> PluginView {
        PluginView { valid: true, started: false, library: Some(library), ..self }
    }

    /// Why the entry point must not be called, if it must not: the plugin is
    /// not valid, or it was started already.
    pub open spec fn begin_refusal(self) -> Option<ErrorView> {
        if !self.valid {
            Some(ErrorView::InvalidPlugin)
        } else if self.started {
            Some(ErrorView::FailedToInitialize)
        } else {
            None
        }
    }

    /// What `begin` returns.
    pub open spec fn begin_result(self, outcome: EntryOutcome) -> Result<(), ErrorView> {
        match self.begin_refusal() {
            Some(e) => Err(e),
            None => match outcome {
                EntryOutcome::Returned(0) => Ok(()),
                _ => Err(ErrorView::FailedToInitialize),
            },
        }
    }

    /// The plugin after `begin`: started where `begin` succeeds, unchanged
    /// where it fails.
    pub open spec fn after_begin(self, outcome: EntryOutcome) -> PluginView {
        if self.begin_result(outcome) is Ok {
            PluginView { started: true, ..self }
        } else {
            self
        }
    }

    /// Why the destructor must not be called, if it must not: the plugin
    /// holds no shared object, or it was not started.
    pub open spec fn terminate_refusal(self) -> Option<ErrorView> {
        if self.library is None || !self.started {
            Some(ErrorView::InvalidPlugin)
        } else {
            None
        }
    }

    /// What `terminate` returns.
    pub open spec fn terminate_result(self, outcome: ExitOutcome) -> Result<(), ErrorView> {
        match self.terminate_refusal() {
            Some(e) => Err(e),
            None => match outcome {
                ExitOutcome::Completed => Ok(()),
                ExitOutcome::Unresolved => Err(ErrorView::InvalidPlugin),
            },
        }
    }

    /// The plugin after `terminate`: where it fails, unchanged. Where it
    /// succeeds, no longer started; one that is not reusable is spent, and
    /// loses its validity, its handle and the path of its package.
    pub open spec fn after_terminate(self, outcome: ExitOutcome) -> PluginView {
        if self.terminate_result(outcome) is Err {
            self
        } else if self.reusable {
            PluginView { started: false, ..self }
        } else {
            PluginView {
                started: false,
                valid: false,
                spent: true,
                library: None,
                filename: Seq::empty(),
                ..self
            }
        }
    }

    /// The plugin after a forced termination. One that holds a shared
    /// object is spent: not valid, not started, and without its handle. One
    /// that holds none is left as it is.
    pub open spec fn after_force_terminate(self) -> PluginView {
        if self.library is Some {
            PluginView { started: false, valid: false, spent: true, library: None, ..self }
        } else {
            self
        }
    }

    /// Which symbol a hook lookup must resolve, or why there is no lookup:
    /// symbols are handed out only while the plugin is active.
    pub open spec fn hook_request(self, name: Seq<char>) -> Result<Seq<char>, ErrorView> {
        if self.active() {
            Ok(name)
        } else {
            Err(ErrorView::InvalidPlugin)
        }
    }

    /// What a hook lookup returns, given what the host resolved.
    pub open spec fn hook_result<H>(self, resolved: Option<H>) -> Result<H, ErrorView> {
        if !self.active() {
            Err(ErrorView::InvalidPlugin)
        } else {
            match resolved {
                Some(hook) => Ok(hook),
                None => Err(ErrorView::MissingSymbol),
            }
        }
    }
}

impl Plugin {
    /// What holds of every plugin that this crate hands out.
    pub open spec fn wf(&self) -> bool {
        self@.well_formed()
    }

    /// A plugin staged from the package at `filename`.
    fn staged(filename: &str) -> (p: Plugin)
        ensures
            p@ == PluginView::staged(filename@),
            p.wf(),
    {
        Plugin {
            metadata: PluginMetadata::blank(),
            filename: String::from_str(filename),
            is_valid: false,
            started: false,
            reusable: true,
            spent: false,
            raw: None,
        }
    }

    /// Stages a plugin from its package: the first step of loading.
    ///
    /// `archive` is what the host got when it read the package at
    /// `filename`: the bytes, or why there are none. A package that could
    /// not be read fails as the failure is classified; bytes that are not
    /// an archive that can be read to its end are an invalid plugin.
    /// Otherwise the result is the staged plugin, with the steps that unpack
    /// the package. No step leaves the directory that the package is
    /// unpacked into.
    pub fn load_archive(filename: &str, archive: Result<Vec<u8>, IoFailure>) -> (r: Result<
        (Plugin, Vec<ExtractStep>),
        VPluginError,
    >)
        ensures
            match archive {
                Err(failure) => r matches Err(e) && e@ == VPluginError::of_io(failure),
                Ok(bytes) => match plan_of(bytes@) {
                    None => r matches Err(e) && e@ == ErrorView::InvalidPlugin,
                    Some(plan) => r matches Ok(staged) && staged.0@ == PluginView::staged(
                        filename@,
                    ) && staged.0.wf() && steps_view(staged.1@) == plan,
                },
            },
            r matches Ok(staged) ==> forall|k: int|
                0 <= k < staged.1@.len() ==> contained((#[trigger] staged.1@[k])@.path()),
    {
        match archive {
            Err(failure) => Err(VPluginError::from_io(failure)),
            Ok(bytes) => match plan_extraction(bytes) {
                Err(e) => Err(e),
                Ok(steps) => Ok((Plugin::staged(filename), steps)),
            },
        }
    }

    /// Whether the manifest is loaded and the shared object is bound.
    pub fn is_valid(&self) -> (r: bool)
        ensures
            r == self@.valid,
    {
        self.is_valid
    }

    /// Whether the entry point has run and reported success.
    pub fn is_started(&self) -> (r: bool)
        ensures
            r == self@.started,
    {
        self.started
    }

    /// Whether the plugin has given up its shared object for good.
    pub fn is_spent(&self) -> (r: bool)
        ensures
            r == self@.spent,
    {
        self.spent
    }

    /// Whether the plugin may be started again after it was terminated.
    pub fn is_reusable(&self) -> (r: bool)
        ensures
            r == self@.reusable,
    {
        self.reusable
    }

    /// Decides whether `terminate` leaves the plugin fit to be started
    /// again. A staged plugin is reusable.
    pub fn set_reusable(&mut self, reusable: bool)
        ensures
            final(self)@ == (PluginView { reusable, ..old(self)@ }),
    {
        self.reusable = reusable;
    }

    /// The path of the package that the plugin came from.
    pub fn filename(&self) -> (r: &str)
        ensures
            r@ == self@.filename,
    {
        self.filename.as_str()
    }

    /// The handle to the shared object, while it is bound. The host
    /// resolves symbols through it.
    pub fn library(&self) -> (r: Option<&libloading::Library>)
        ensures
            match r {
                Some(library) => self@.library == Some(*library),
                None => self@.library is None,
            },
    {
        self.raw.as_ref()
    }

    /// The plugin's description. Before the manifest is loaded every field
    /// of it is empty.
    pub fn get_metadata(&self) -> (m: &PluginMetadata)
        ensures
            m@ == self@.metadata,
    {
        &self.metadata
    }

    /// The directory below `root` that holds the plugin's unpacked files:
    /// the subdirectory that bears the plugin's name. A plugin has no
    /// directory before its manifest has given it a name that identifies
    /// it.
    pub fn working_directory(&self, root: &str) -> (r: Option<String>)
        ensures
            match r {
                Some(directory) => identifiable(self@.metadata.name) && directory@
                    == directory_of(root@, self@.metadata.name),
                None => !identifiable(self@.metadata.name),
            },
    {
        if is_identifiable(self.metadata.name.as_str()) {
            Some(plugin_directory(root, self.metadata.name.as_str()))
        } else {
            None
        }
    }

    /// The path of the plugin's shared object below `root`: the file that
    /// the manifest names, inside the plugin's working directory. There is
    /// no such path before the plugin has a working directory.
    pub fn library_path(&self, root: &str) -> (r: Option<String>)
        ensures
            match r {
                Some(path) => identifiable(self@.metadata.name) && path@ == directory_of(
                    directory_of(root@, self@.metadata.name),
                    self@.metadata.objfile,
                ),
                None => !identifiable(self@.metadata.name),
            },
    {
        match self.working_directory(root) {
            Some(directory) => Some(
                plugin_directory(directory.as_str(), self.metadata.objfile.as_str()),
            ),
            None => None,
        }
    }

    /// Loads the plugin's description from what the host found at the
    /// manifest's path. On success the description is stored and nothing
    /// else changes; on failure nothing changes at all.
    pub fn load_metadata(&mut self, source: ManifestSource) -> (r: Result<(), ManifestFault>)
        ensures
            old(self).wf() ==> final(self).wf(),
            match r {
                Ok(()) => loaded_from(source) matches Ok(m)
                    && final(self)@ == old(self)@.described(m),
                Err(fault) => loaded_from(source) == Err::<MetadataView, FaultView>(fault@)
                    && final(self)@ == old(self)@,
            },
    {
        match PluginMetadata::load(source) {
            Ok(m) => {
                self.metadata = m;
                Ok(())
            },
            Err(fault) => Err(fault),
        }
    }

    /// Completes the loading of a described plugin with what the host got
    /// when it bound the shared object.
    ///
    /// Succeeds exactly if the shared object was bound, the plugin has a
    /// name that identifies it, and it is neither bound already nor spent.
    /// The plugin
    /// returned is valid and not started, and holds the handle. In every
    /// other case the error is `InvalidPlugin` and no plugin is returned.
    pub fn load(self, library: Result<libloading::Library, libloading::Error>) -> (r: Result<
        Plugin,
        VPluginError,
    >)
        ensures
            match r {
                Ok(p) => library matches Ok(l) && self@.may_bind() && p@ == self@.bound_to(l)
                    && p.wf() && p@.valid && !p@.started,
                Err(e) => !(library is Ok && self@.may_bind()) && e@ == ErrorView::InvalidPlugin,
            },
    {
        let mut plugin = self;
        match library {
            Err(_) => Err(VPluginError::InvalidPlugin),
            Ok(l) => {
                if plugin.is_valid || plugin.spent || !is_identifiable(
                    plugin.metadata.name.as_str(),
                ) {
                    Err(VPluginError::InvalidPlugin)
                } else {
                    plugin.raw = Some(l);
                    plugin.is_valid = true;
                    plugin.started = false;
                    Ok(plugin)
                }
            },
        }
    }

    /// The first half of `begin`: the symbol of the entry point that the
    /// host must resolve and call, or why it must not call anything.
    pub fn entry_symbol(&self) -> (r: Result<String, VPluginError>)
        ensures
            match self@.begin_refusal() {
                Some(e) => r matches Err(x) && x@ == e,
                None => r matches Ok(symbol) && symbol@ == ENTRY_POINT@,
            },
    {
        self.entry_symbol_named(ENTRY_POINT)
    }

    /// As `entry_symbol`, for an entry point called `entry`.
    pub fn entry_symbol_named(&self, entry: &str) -> (r: Result<String, VPluginError>)
        ensures
            match self@.begin_refusal() {
                Some(e) => r matches Err(x) && x@ == e,
                None => r matches Ok(symbol) && symbol@ == entry@,
            },
    {
        if !self.is_valid {
            Err(VPluginError::InvalidPlugin)
        } else if self.started {
            Err(VPluginError::FailedToInitialize)
        } else {
            Ok(String::from_str(entry))
        }
    }

    /// Starts the plugin, given what came of calling its entry point.
    ///
    /// A plugin that is not valid fails with `InvalidPlugin`, one that is
    /// started already with `FailedToInitialize`, whatever `outcome` says.
    /// Otherwise the plugin is started if the entry point returned 0, and
    /// fails with `FailedToInitialize` if it returned anything else or was
    /// not found. A failure leaves the plugin as it was.
    pub fn begin(&mut self, outcome: EntryOutcome) -> (r: Result<(), VPluginError>)
        ensures
            old(self).wf() ==> final(self).wf(),
            agrees(r, old(self)@.begin_result(outcome)),
            final(self)@ == old(self)@.after_begin(outcome),
    {
        if !self.is_valid {
            return Err(VPluginError::InvalidPlugin);
        }
        if self.started {
            return Err(VPluginError::FailedToInitialize);
        }
        match outcome {
            EntryOutcome::Returned(status) => {
                if status != 0 {
                    return Err(VPluginError::FailedToInitialize);
                }
            },
            EntryOutcome::Unresolved => {
                return Err(VPluginError::FailedToInitialize);
            },
        }
        self.started = true;
        Ok(())
    }

    /// The first half of `terminate`: the symbol of the destructor that the
    /// host must resolve and call, or why it must not call anything.
    pub fn exit_symbol(&self) -> (r: Result<String, VPluginError>)
        ensures
            match self@.terminate_refusal() {
                Some(e) => r matches Err(x) && x@ == e,
                None => r matches Ok(symbol) && symbol@ == EXIT_POINT@,
            },
    {
        if self.raw.is_none() || !self.started {
            Err(VPluginError::InvalidPlugin)
        } else {
            Ok(String::from_str(EXIT_POINT))
        }
    }

    /// Stops the plugin, given what came of calling its destructor.
    ///
    /// A plugin that holds no shared object or was not started fails with
    /// `InvalidPlugin`, and so does one whose destructor was not found; the
    /// plugin is then left as it was, and the caller may decide to force the
    /// termination. Otherwise the plugin is no longer started, and if it is
    /// not reusable it gives up its shared object and is no longer valid.
    pub fn terminate(&mut self, outcome: ExitOutcome) -> (r: Result<(), VPluginError>)
        ensures
            old(self).wf() ==> final(self).wf(),
            agrees(r, old(self)@.terminate_result(outcome)),
            final(self)@ == old(self)@.after_terminate(outcome),
    {
        if self.raw.is_none() {
            return Err(VPluginError::InvalidPlugin);
        }
        if !self.started {
            return Err(VPluginError::InvalidPlugin);
        }
        match outcome {
            ExitOutcome::Unresolved => {
                return Err(VPluginError::InvalidPlugin);
            },
            ExitOutcome::Completed => {},
        }
        self.started = false;
        if !self.reusable {
            self.release();
            self.filename = String::new();
        }
        Ok(())
    }

    /// Tears the plugin down without asking it: the shared object is
    /// unloaded, and the plugin is spent. The destructor is not called and
    /// there is no symbol for the host to resolve. This cannot fail; a
    /// plugin that holds no shared object is left as it is.
    pub fn force_terminate(&mut self)
        ensures
            final(self)@ == old(self)@.after_force_terminate(),
            final(self)@.library is None,
            old(self).wf() ==> final(self).wf(),
    {
        if self.raw.is_some() {
            self.started = false;
            self.release();
        }
    }

    /// Gives up the shared object for good.
    fn release(&mut self)
        requires
            old(self)@.library is Some,
        ensures
            final(self)@ == (PluginView {
                valid: false,
                spent: true,
                library: None,
                ..old(self)@
            }),
    {
        self.is_valid = false;
        self.spent = true;
        match self.raw.take() {
            Some(library) => {
                let _ = close_library(library);
            },
            None => {},
        }
    }

    /// The first half of a hook lookup: the symbol that the host must
    /// resolve, or `InvalidPlugin` where the plugin is not active.
    pub fn hook_symbol(&self, fn_name: &str) -> (r: Result<String, VPluginError>)
        ensures
            agrees_text(r, self@.hook_request(fn_name@)),
    {
        if !self.started || !self.is_valid || self.raw.is_none() {
            Err(VPluginError::InvalidPlugin)
        } else {
            Ok(String::from_str(fn_name))
        }
    }

    /// Hands out a hook that the host resolved. A plugin that is not active
    /// gives `InvalidPlugin` and no hook, whatever was resolved; on an
    /// active plugin a symbol that was not found is `MissingSymbol`.
    pub fn load_vhook<H>(&self, resolved: Option<H>) -> (r: Result<H, VPluginError>)
        ensures
            agrees(r, self@.hook_result(resolved)),
    {
        if !self.started || !self.is_valid || self.raw.is_none() {
            return Err(VPluginError::InvalidPlugin);
        }
        match resolved {
            Some(hook) => Ok(hook),
            None => Err(VPluginError::MissingSymbol),
        }
    }

    /// Hands out a hook of the generic shape (one opaque pointer in, an
    /// integer status out) that the host resolved.
    pub fn get_hook<H>(&self, resolved: Option<H>) -> (r: Result<H, VPluginError>)
        ensures
            agrees(r, self@.hook_result(resolved)),
    {
        self.load_vhook(resolved)
    }

    /// Hands out a hook of a shape that the host chose, which the host
    /// resolved.
    pub fn get_custom_hook<H>(&self, resolved: Option<H>) -> (r: Result<H, VPluginError>)
        ensures
            agrees(r, self@.hook_result(resolved)),
    {
        if !self.started || !self.is_valid || self.raw.is_none() {
            return Err(VPluginError::InvalidPlugin);
        }
        match resolved {
            Some(hook) => Ok(hook),
            None => Err(VPluginError::MissingSymbol),
        }
    }

    /// Whether a function is available, given whether the host found its
    /// symbol: a plugin without a shared object has no functions.
    pub fn is_function_available(&self, found: bool) -> (r: bool)
        ensures
            r == (self@.library is Some && found),
    {
        if self.raw.is_none() {
            return false;
        }
        found
    }

    /// Whether a symbol is present, given whether the host found it. The
    /// answer says nothing of the symbol's type. Only a plugin that holds a
    /// shared object can be probed.
    pub fn is_symbol_present(&self, found: bool) -> (r: bool)
        requires
            self@.library is Some,
        ensures
            r == found,
    {
        found
    }
}

/// A package that unpacks, with a manifest that loads and a shared object
/// that binds, gives a plugin: each step of loading leads to the next, and
/// the plugin that comes out is valid and not started.
pub proof fn a_sound_package_loads(
    filename: Seq<char>,
    source: ManifestSource,
    library: libloading::Library,
)
    requires
        loaded_from(source) is Ok,
    ensures
        ({
            let described = PluginView::staged(filename).described(loaded_from(source)->Ok_0);
            let loaded = described.bound_to(library);
            &&& described.well_formed()
            &&& described.may_bind()
            &&& loaded.well_formed()
            &&& loaded.valid
            &&& !loaded.started
            &&& loaded.library == Some(library)
            &&& loaded.begin_refusal() is None
        }),
{
}

/// A plugin that is not valid cannot be started: `begin` fails with
/// `InvalidPlugin` whatever the host reports, the plugin stays as it was,
/// and the first half names no symbol, so no native code is called. A
/// staged plugin is such a plugin.
pub proof fn begin_needs_a_valid_plugin(p: PluginView, outcome: EntryOutcome)
    requires
        !p.valid,
    ensures
        p.begin_refusal() == Some(ErrorView::InvalidPlugin),
        p.begin_result(outcome) == Err::<(), ErrorView>(ErrorView::InvalidPlugin),
        p.after_begin(outcome) == p,
        !PluginView::staged(p.filename).valid,
{
}

/// A plugin that was started cannot be started again: the second `begin`
/// fails with `FailedToInitialize` whatever the host reports, changes
/// nothing, and its first half names no symbol, so the entry point does not
/// run a second time.
pub proof fn begin_twice_fails(p: PluginView, first: EntryOutcome, second: EntryOutcome)
    requires
        p.begin_result(first) is Ok,
    ensures
        p.after_begin(first).started,
        p.after_begin(first).begin_refusal() == Some(ErrorView::FailedToInitialize),
        p.after_begin(first).begin_result(second) == Err::<(), ErrorView>(
            ErrorView::FailedToInitialize,
        ),
        p.after_begin(first).after_begin(second) == p.after_begin(first),
{
}

/// A plugin that was not started cannot be terminated: `terminate` fails
/// with `InvalidPlugin` whatever the host reports, changes nothing, and its
/// first half names no symbol.
pub proof fn terminate_needs_a_started_plugin(p: PluginView, outcome: ExitOutcome)
    requires
        !p.started,
    ensures
        p.terminate_refusal() == Some(ErrorView::InvalidPlugin),
        p.terminate_result(outcome) == Err::<(), ErrorView>(ErrorView::InvalidPlugin),
        p.after_terminate(outcome) == p,
{
}

/// After a successful `begin`, a plugin whose destructor ran is
/// terminated: the first half of `terminate` names the destructor,
/// `terminate` succeeds and the plugin is no longer started. The destructor
/// is asked for once: on the terminated plugin the first half refuses.
pub proof fn terminate_after_begin_succeeds(p: PluginView, entry: EntryOutcome)
    requires
        p.well_formed(),
        p.begin_result(entry) is Ok,
    ensures
        p.after_begin(entry).terminate_refusal() is None,
        p.after_begin(entry).terminate_result(ExitOutcome::Completed) is Ok,
        !p.after_begin(entry).after_terminate(ExitOutcome::Completed).started,
        p.after_begin(entry).after_terminate(ExitOutcome::Completed).terminate_refusal() == Some(
            ErrorView::InvalidPlugin,
        ),
{
}

/// A plugin without a destructor cannot be terminated in the ordinary way:
/// `terminate` fails with `InvalidPlugin` and the plugin stays as it was, a
/// started plugin started.
pub proof fn terminate_without_destructor_fails(p: PluginView)
    ensures
        p.terminate_result(ExitOutcome::Unresolved) == Err::<(), ErrorView>(
            ErrorView::InvalidPlugin,
        ),
        p.after_terminate(ExitOutcome::Unresolved) == p,
        p.after_terminate(ExitOutcome::Unresolved).started == p.started,
{
}

/// After a forced termination the shared object is out of reach: the plugin
/// holds no handle, hands out no hook, and can be neither started nor
/// terminated nor bound again, so no native code of it is called again.
pub proof fn force_terminate_ends_all_use<H>(
    p: PluginView,
    name: Seq<char>,
    resolved: Option<H>,
    entry: EntryOutcome,
    exit: ExitOutcome,
)
    requires
        p.well_formed(),
    ensures
        p.after_force_terminate().library is None,
        p.after_force_terminate().well_formed(),
        p.library is Some ==> p.after_force_terminate().spent,
        p.library is Some ==> !p.after_force_terminate().may_bind(),
        p.after_force_terminate().hook_request(name) == Err::<Seq<char>, ErrorView>(
            ErrorView::InvalidPlugin,
        ),
        p.after_force_terminate().hook_result(resolved) == Err::<H, ErrorView>(
            ErrorView::InvalidPlugin,
        ),
        p.after_force_terminate().begin_refusal() == Some(ErrorView::InvalidPlugin),
        p.after_force_terminate().begin_result(entry) is Err,
        p.after_force_terminate().terminate_refusal() == Some(ErrorView::InvalidPlugin),
        p.after_force_terminate().terminate_result(exit) is Err,
{
}

/// Every step of a plugin's life keeps it well-formed: started only while
/// valid, valid exactly while its shared object is bound, and then with a
/// name that identifies it.
pub proof fn steps_keep_well_formedness(
    p: PluginView,
    library: libloading::Library,
    entry: EntryOutcome,
    exit: ExitOutcome,
)
    requires
        p.well_formed(),
    ensures
        PluginView::staged(p.filename).well_formed(),
        p.may_bind() ==> p.bound_to(library).well_formed(),
        p.after_begin(entry).well_formed(),
        p.after_terminate(exit).well_formed(),
        p.after_force_terminate().well_formed(),
{
}

/// Symbols are handed out only while the plugin is active, and only those
/// that the host found in the shared object; the entry point is asked for
/// only on a plugin that is valid and not started, the destructor only on
/// one that is started.
pub proof fn lookups_need_an_active_plugin<H>(p: PluginView, name: Seq<char>, hook: H)
    ensures
        p.hook_request(name) is Ok <==> p.active(),
        p.hook_result(Some(hook)) is Ok <==> p.active(),
        p.hook_result::<H>(None) is Err,
        p.active() ==> p.hook_result::<H>(None) == Err::<H, ErrorView>(ErrorView::MissingSymbol),
        p.begin_refusal() is None <==> p.valid && !p.started,
        p.terminate_refusal() is None <==> p.library is Some && p.started,
{
}

/// A spent plugin stays spent: it cannot be bound, started or terminated,
/// it hands out no hook, and a forced termination leaves it as it is.
pub proof fn spent_is_final<H>(
    p: PluginView,
    name: Seq<char>,
    resolved: Option<H>,
    entry: EntryOutcome,
    exit: ExitOutcome,
)
    requires
        p.well_formed(),
        p.spent,
    ensures
        !p.may_bind(),
        p.after_begin(entry) == p,
        p.begin_result(entry) == Err::<(), ErrorView>(ErrorView::InvalidPlugin),
        p.after_terminate(exit) == p,
        p.terminate_result(exit) == Err::<(), ErrorView>(ErrorView::InvalidPlugin),
        p.after_force_terminate() == p,
        p.hook_request(name) is Err,
        p.hook_result(resolved) is Err,
{
}

} // verus!
