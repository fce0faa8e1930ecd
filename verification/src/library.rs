//! The handle to a bound shared object.
//!
//! Binding a shared object and calling into it is the host's work: only the
//! host can vouch for native code. This crate keeps the handle, so that the
//! state of a plugin and the presence of its handle cannot drift apart, and
//! gives it up when the plugin is torn down. Nothing in this module is
//! proved.

use vstd::prelude::*;

verus! {

/// `libloading::Library`, the handle to a loaded shared object.
#[verifier::external_type_specification]
#[verifier::external_body]
pub struct ExLibrary(libloading::Library);

/// `libloading::Error`, why a shared object could not be bound, searched or
/// unloaded.
#[verifier::external_type_specification]
#[verifier::external_body]
pub struct ExLibraryError(libloading::Error);

/// Calls `libloading::Library::close`: unloads the shared object. Whether
/// the platform reports an error is not known in advance, so nothing is
/// stated of the result.
#[verifier::external_body]
pub(crate) fn close_library(library: libloading::Library) -> Result<(), libloading::Error> {
    library.close()
}

} // verus!
