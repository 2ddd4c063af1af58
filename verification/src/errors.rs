use vstd::prelude::*;

verus! {

/// The classified failures of the install and probe operations. Each variant
/// that stems from an outside condition carries the offending value (a URL,
/// a path, an OS name, or the collaborator's own message) so that a caller
/// can diagnose the failure without re-running it.
#[derive(Debug)]
pub enum DriverError {
    /// A remote fetch failed: DNS, connection, non-2xx status, or timeout.
    NetworkError { detail: String },
    /// The metadata body was not valid structured data.
    ParseError,
    /// The metadata parsed, but the stable-channel version field was absent.
    MissingFieldError,
    /// The running operating system is not one of the supported ones.
    UnsupportedPlatformError { os: String },
    /// The downloaded payload was not a readable archive, or extraction failed.
    ArchiveError { detail: String },
    /// Directory creation or the permission change failed.
    FilesystemError { detail: String },
    /// The installed driver could not be spawned or waited on.
    ProcessError { detail: String },
}

} // verus!
