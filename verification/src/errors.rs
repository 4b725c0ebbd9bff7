use vstd::prelude::*;

verus! {

/// The ways this library's work can fail.
///
/// `PathParsing` is returned when a download URL carries no usable final path
/// segment, so no local filename can be derived. `NetworkFailure` and
/// `FilesystemFailure` are reserved for the unverified shell around the
/// library: a transfer that could not complete, or a directory/file creation
/// or copy that failed (including "already exists" on exclusive creation).
/// `ArchiveReadFailure` reports a malformed or unreadable archive container.
#[derive(Clone, Copy, Debug, PartialEq, Eq, Structural)]
pub enum FetchError {
    PathParsing,
    NetworkFailure,
    ArchiveReadFailure,
    FilesystemFailure,
}

} // verus!
