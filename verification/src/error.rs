//! The error taxonomy of the version manager.
//!
//! Every stage of the pipeline propagates its error upward unmodified; the
//! command dispatcher is the only place that renders one. A rendered error is
//! a single line, produced by [`PyVerError::message`].

use vstd::prelude::*;

verus! {

/// What kind of directory entry a lookup failed to find.
#[derive(Clone, Copy, PartialEq, Eq, Structural, Debug)]
pub enum NotFoundKind {
    /// A cached source archive (also the label the installed-version lookup
    /// reports on a miss).
    Tarball,
    /// An extracted source directory.
    Unpacked,
}

/// An error of the version manager itself.
///
/// Failures of the operating environment (a filesystem error other than the
/// ones below, a failed network transfer) are carried by the variants
/// `TransportFailure` and `SubprocessFailure`; everything else the binary
/// propagates as it received it.
#[derive(Clone, PartialEq, Eq, Debug)]
pub enum PyVerError {
    /// A required file or directory entry could not be located.
    NotFound { kind: NotFoundKind },
    /// A path expected to be a directory exists as something else.
    RootNotDirectory { path: String },
    /// No explicit root, no root environment variable, and no home directory.
    EnvironmentLookupFailure,
    /// The network fetch of a source archive failed.
    TransportFailure,
    /// The archive or build tool could not be spawned.
    SubprocessFailure,
}

impl NotFoundKind {
    /// The name the error message uses for the missing entry.
    pub fn label(&self) -> (r: &'static str)
        ensures
            *self is Tarball ==> r@ == "tarball"@,
            *self is Unpacked ==> r@ == "unpacked"@,
    {
        match self {
            NotFoundKind::Tarball => "tarball",
            NotFoundKind::Unpacked => "unpacked",
        }
    }
}

/// The single-line rendering of an error, in the abstract.
pub open spec fn spec_message(e: PyVerError) -> Seq<char> {
    match e {
        PyVerError::NotFound { kind } => "Could not find "@ + match kind {
            NotFoundKind::Tarball => "tarball"@,
            NotFoundKind::Unpacked => "unpacked"@,
        },
        PyVerError::RootNotDirectory { path } => path@ + " is not a directory"@,
        PyVerError::EnvironmentLookupFailure => "environment variable not found"@,
        PyVerError::TransportFailure => "network transfer failed"@,
        PyVerError::SubprocessFailure => "could not spawn subprocess"@,
    }
}

impl PyVerError {
    /// The single-line message the dispatcher prints for this error.
    pub fn message(&self) -> (r: String)
        ensures
            r@ == spec_message(*self),
    {
        match self {
            PyVerError::NotFound { kind } => {
                String::from_str("Could not find ").concat(kind.label())
            },
            PyVerError::RootNotDirectory { path } => {
                path.clone().concat(" is not a directory")
            },
            PyVerError::EnvironmentLookupFailure => {
                String::from_str("environment variable not found")
            },
            PyVerError::TransportFailure => String::from_str("network transfer failed"),
            PyVerError::SubprocessFailure => String::from_str("could not spawn subprocess"),
        }
    }
}

} // verus!
