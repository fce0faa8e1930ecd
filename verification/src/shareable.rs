//! Sending data to a plugin.

use vstd::prelude::*;
use crate::plugin::Plugin;

verus! {

/// For a host's own types that can be handed to a plugin. What is handed
/// over may be used by threads that the plugin starts, so it must be `Send`
/// and `Sync`.
pub trait Shareable<T> where T: Send + Sync + ?Sized {
    /// Sends `self` into the plugin.
    fn send(&mut self, plugin: &Plugin);
}

} // verus!
