//! The plugin manager: the one place where a host configures how its
//! plugins are started.
//!
//! A manager owns no plugin. It holds the name of the entry point that the
//! host's plugins export, and starts plugins by that name.

use vstd::prelude::*;
use vstd::string::StrSliceExecFns;
use vstd::string::StringExecFns;
use crate::archive::{contained, plan_of, steps_view, ExtractStep};
use crate::error::{ErrorView, IoFailure, VPluginError};
use crate::plugin::{agrees, EntryOutcome, Plugin, PluginView, ENTRY_POINT};

verus! {

/// Holds the entry point's name for all plugins of a host.
pub struct PluginManager {
    entry: String,
}

impl View for PluginManager {
    type V = Seq<char>;

    /// The name of the entry point.
    closed spec fn view(&self) -> Seq<char> {
        self.entry@
    }
}

/// Whether some character of `s` is NUL. A symbol's name cannot hold one.
pub open spec fn has_nul(s: Seq<char>) -> bool {
    exists|i: int| 0 <= i < s.len() && #[trigger] s[i] == '\0'
}

/// Whether some character of `s` is NUL.
pub fn contains_nul(s: &str) -> (r: bool)
    ensures
        r == has_nul(s@),
{
    let n: usize = s.unicode_len();
    let mut i: usize = 0;
    while i < n
        invariant
            n == s@.len(),
            i <= n,
            forall|j: int| 0 <= j < i ==> #[trigger] s@[j] != '\0',
        decreases n - i,
    {
        if s.get_char(i) == '\0' {
            return true;
        }
        i += 1;
    }
    false
}

impl PluginManager {
    /// What holds of every manager: the name of its entry point can be the
    /// name of a symbol.
    pub open spec fn wf(&self) -> bool {
        !has_nul(self@)
    }

    /// A manager whose entry point has the conventional name.
    pub fn new() -> (m: PluginManager)
        ensures
            m@ == ENTRY_POINT@,
            m.wf(),
    {
        proof {
            reveal_strlit("vplugin_init");
        }
        PluginManager { entry: String::from_str(ENTRY_POINT) }
    }

    /// The name of the entry point.
    pub fn entry_point(&self) -> (r: &str)
        ensures
            r@ == self@,
    {
        self.entry.as_str()
    }

    /// Sets the name of the entry point for the plugins started from now
    /// on. A symbol's name cannot hold a NUL character.
    pub fn set_entry_point(&mut self, entry_point: &str)
        requires
            !has_nul(entry_point@),
        ensures
            final(self)@ == entry_point@,
            final(self).wf(),
    {
        self.entry = String::from_str(entry_point);
    }

    /// Stages a plugin from its package, as [`Plugin::load_archive`] does,
    /// after checking the path: an empty path is a parameter error, whatever
    /// the host read.
    pub fn load_plugin(&mut self, filename: &str, archive: Result<Vec<u8>, IoFailure>) -> (r:
        Result<(Plugin, Vec<ExtractStep>), VPluginError>)
        ensures
            final(self)@ == old(self)@,
            if filename@.len() == 0 {
                r matches Err(e) && e@ == ErrorView::ParametersError
            } else {
                match archive {
                    Err(failure) => r matches Err(e) && e@ == VPluginError::of_io(failure),
                    Ok(bytes) => match plan_of(bytes@) {
                        None => r matches Err(e) && e@ == ErrorView::InvalidPlugin,
                        Some(plan) => r matches Ok(staged) && staged.0@ == PluginView::staged(
                            filename@,
                        ) && staged.0.wf() && steps_view(staged.1@) == plan,
                    },
                }
            },
            r matches Ok(staged) ==> forall|k: int|
                0 <= k < staged.1@.len() ==> contained((#[trigger] staged.1@[k])@.path()),
    {
        if filename.is_empty() {
            return Err(VPluginError::ParametersError);
        }
        Plugin::load_archive(filename, archive)
    }

    /// Does nothing and succeeds. Plugins need not be registered.
    pub fn register_plugin(&mut self, plugin: &mut Plugin) -> (r: Result<(), VPluginError>)
        ensures
            r is Ok,
            final(self)@ == old(self)@,
            final(plugin)@ == old(plugin)@,
    {
        Ok(())
    }

    /// Hands out a hook of the generic shape that the host resolved in
    /// `plugin`, as [`Plugin::get_hook`] does.
    pub fn get_hook<H>(&mut self, plugin: &Plugin, resolved: Option<H>) -> (r: Result<
        H,
        VPluginError,
    >)
        ensures
            final(self)@ == old(self)@,
            agrees(r, plugin@.hook_result(resolved)),
    {
        plugin.get_hook(resolved)
    }

    /// Hands out a hook of a shape that the host chose, as
    /// [`Plugin::get_custom_hook`] does.
    pub fn get_custom_hook<H>(&self, plugin: &Plugin, resolved: Option<H>) -> (r: Result<
        H,
        VPluginError,
    >)
        ensures
            agrees(r, plugin@.hook_result(resolved)),
    {
        plugin.get_custom_hook(resolved)
    }

    /// The first half of `begin_plugin`: the symbol of the entry point that
    /// the host must resolve and call in `plugin`, which is the name that
    /// this manager holds, or why it must not call anything.
    pub fn entry_symbol(&self, plugin: &Plugin) -> (r: Result<String, VPluginError>)
        ensures
            match plugin@.begin_refusal() {
                Some(e) => r matches Err(x) && x@ == e,
                None => r matches Ok(symbol) && symbol@ == self@,
            },
    {
        plugin.entry_symbol_named(self.entry.as_str())
    }

    /// Starts `plugin`, given what came of calling the entry point that
    /// this manager names. The plugin changes as [`Plugin::begin`] says.
    pub fn begin_plugin(&mut self, plugin: &mut Plugin, outcome: EntryOutcome) -> (r: Result<
        (),
        VPluginError,
    >)
        ensures
            final(self)@ == old(self)@,
            old(plugin).wf() ==> final(plugin).wf(),
            agrees(r, old(plugin)@.begin_result(outcome)),
            final(plugin)@ == old(plugin)@.after_begin(outcome),
    {
        plugin.begin(outcome)
    }
}

} // verus!
