//! A native plugin host with a verified core.
//!
//! A plugin is a package: an archive that holds a manifest and a compiled
//! shared object. This crate decides everything about a plugin's life that
//! can be decided without touching the operating system: which archive
//! entries are unpacked and where, what the manifest must say, in which
//! state a plugin may be started, queried and stopped, and which error each
//! failure becomes. The host performs the native work (reading files,
//! binding the shared object, calling into it) and reports what happened.

use vstd::prelude::*;

pub mod archive;
pub mod document;
pub mod error;
pub mod library;
pub mod manifest;
pub mod plugin;
pub mod plugin_manager;
pub mod shareable;
pub mod workdir;

pub use archive::ExtractStep;
pub use error::{IoFailure, VPluginError};
pub use manifest::{ManifestFault, ManifestSource, PluginMetadata};
pub use plugin::{EntryOutcome, ExitOutcome, Plugin};
pub use plugin_manager::PluginManager;
pub use shareable::Shareable;

verus! {

/// The result of an operation of this crate: a value, or a [`VPluginError`].
pub enum Result<T> {
    /// The operation succeeded with this value.
    Success(T),
    /// The operation failed with this error.
    Failure(VPluginError),
}

impl<T> Result<T> {
    /// Whether the operation succeeded.
    pub fn is_success(&self) -> (r: bool)
        ensures
            r == (self is Success),
    {
        match self {
            Result::Success(_) => true,
            Result::Failure(_) => false,
        }
    }

    /// Returns the value of a success. A failure has no value to give, so
    /// the caller must know that `self` is a success.
    pub fn unwrap(self) -> (t: T)
        requires
            self is Success,
        ensures
            t == self->Success_0,
    {
        match self {
            Result::Success(t) => t,
            Result::Failure(_) => vstd::pervasive::unreached(),
        }
    }
}

} // verus!
