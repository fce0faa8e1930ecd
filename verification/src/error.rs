//! Error kinds, and how a failed file access is classified.

use vstd::prelude::*;
use vstd::string::StringExecFns;

verus! {

/// What can go wrong while a plugin is loaded, started, queried or stopped.
#[derive(Debug, Clone, PartialEq, Eq)]
pub enum VPluginError {
    /// Malformed input, such as manifest text that cannot be read.
    ParametersError,
    /// The plugin is not valid for this operation: a broken archive, a
    /// missing native symbol that is required, or a call out of order.
    InvalidPlugin,
    /// The archive or the manifest was not found.
    NoSuchFile,
    /// The host system denied access.
    PermissionDenied,
    /// The requested symbol is not present in the shared object.
    MissingSymbol,
    /// The entry point could not be resolved, reported a failure, or had
    /// already run.
    FailedToInitialize,
    /// A condition outside the other kinds; `err` describes it.
    InternalError { err: String },
}

/// Why the operating system refused to open or read a file.
#[derive(Debug, Clone, Copy, PartialEq, Eq, Structural)]
pub enum IoFailure {
    PermissionDenied,
    Unsupported,
    NotFound,
    Interrupted,
    UnexpectedEof,
    OutOfMemory,
    /// Any failure that has no variant of its own.
    Other,
}

/// A [`VPluginError`] as a mathematical value: its kind, and for an internal
/// error the characters of its message.
pub enum ErrorView {
    ParametersError,
    InvalidPlugin,
    NoSuchFile,
    PermissionDenied,
    MissingSymbol,
    FailedToInitialize,
    InternalError(Seq<char>),
}

impl View for VPluginError {
    type V = ErrorView;

    open spec fn view(&self) -> ErrorView {
        match *self {
            VPluginError::ParametersError => ErrorView::ParametersError,
            VPluginError::InvalidPlugin => ErrorView::InvalidPlugin,
            VPluginError::NoSuchFile => ErrorView::NoSuchFile,
            VPluginError::PermissionDenied => ErrorView::PermissionDenied,
            VPluginError::MissingSymbol => ErrorView::MissingSymbol,
            VPluginError::FailedToInitialize => ErrorView::FailedToInitialize,
            VPluginError::InternalError { err } => ErrorView::InternalError(err@),
        }
    }
}

impl VPluginError {
    /// The error that a failed file access is reported as.
    pub open spec fn of_io(failure: IoFailure) -> ErrorView {
        match failure {
            IoFailure::PermissionDenied => ErrorView::PermissionDenied,
            IoFailure::Unsupported => ErrorView::InternalError("Unsupported file"@),
            IoFailure::NotFound => ErrorView::NoSuchFile,
            IoFailure::Interrupted => ErrorView::InvalidPlugin,
            IoFailure::UnexpectedEof => ErrorView::InvalidPlugin,
            IoFailure::OutOfMemory => ErrorView::InternalError("Host is out of memory"@),
            IoFailure::Other => ErrorView::InternalError("Unknown error."@),
        }
    }

    /// Classifies a failed file access.
    pub fn from_io(failure: IoFailure) -> (e: VPluginError)
        ensures
            e@ == Self::of_io(failure),
    {
        match failure {
            IoFailure::PermissionDenied => VPluginError::PermissionDenied,
            IoFailure::Unsupported => VPluginError::InternalError {
                err: String::from_str("Unsupported file"),
            },
            IoFailure::NotFound => VPluginError::NoSuchFile,
            IoFailure::Interrupted => VPluginError::InvalidPlugin,
            IoFailure::UnexpectedEof => VPluginError::InvalidPlugin,
            IoFailure::OutOfMemory => VPluginError::InternalError {
                err: String::from_str("Host is out of memory"),
            },
            IoFailure::Other => VPluginError::InternalError {
                err: String::from_str("Unknown error."),
            },
        }
    }
}

} // verus!
