//! The closed failure taxonomy: every filesystem error is classified as
//! `NotFound`, `PermissionDenied`, or `Unknown`, and each outcome maps to
//! one response status code.

use vstd::prelude::*;

verus! {

/// The kind of a platform I/O error, as reported by the metadata query,
/// directory enumeration, or file read that failed. The caller translates
/// the platform's error kind into this closed set, one variant each.
#[derive(Clone, Copy, Debug, PartialEq, Eq, Structural)]
pub enum FsErrorKind {
    /// The path does not exist.
    NotFound,
    /// The operating system denied access.
    PermissionDenied,
    /// The bytes read were not valid text.
    InvalidData,
    /// The path named a directory where a file was expected.
    IsADirectory,
    /// The path named a non-directory where a directory was expected.
    NotADirectory,
    /// The operation was interrupted.
    Interrupted,
    /// The data ended before the operation was complete.
    UnexpectedEof,
    /// The operation timed out.
    TimedOut,
    /// Any other platform error.
    Other,
}

/// The detail carried by an `Unknown` outcome: either the one unfinished
/// operation (resolving a symbolic link) or an ordinary I/O failure with
/// the underlying error kind.
#[derive(Clone, Copy, Debug, PartialEq, Eq, Structural)]
pub enum UnknownDetail {
    /// Resolving a symbolic link's target is not implemented; building a
    /// link yields this marker rather than a crash.
    UnresolvedLink,
    /// An I/O failure that is neither `NotFound` nor `PermissionDenied`.
    Io(FsErrorKind),
}

/// The three-way failure classification attached to every classify or
/// build operation, regardless of which underlying filesystem call failed.
#[derive(Clone, Copy, Debug, PartialEq, Eq, Structural)]
pub enum Outcome {
    /// The path does not exist.
    NotFound,
    /// OS permissions denied access to the path.
    PermissionDenied,
    /// Any other failure, with its detail.
    Unknown(UnknownDetail),
}

/// How an error kind is classified: `NotFound` and `PermissionDenied` keep
/// their identity; every other kind becomes `Unknown` carrying the kind.
pub open spec fn spec_outcome_of(kind: FsErrorKind) -> Outcome {
    match kind {
        FsErrorKind::NotFound => Outcome::NotFound,
        FsErrorKind::PermissionDenied => Outcome::PermissionDenied,
        _ => Outcome::Unknown(UnknownDetail::Io(kind)),
    }
}

/// Classifies a platform error kind into the closed outcome taxonomy.
pub fn outcome_of(kind: FsErrorKind) -> (r: Outcome)
    ensures
        r == spec_outcome_of(kind),
{
    match kind {
        FsErrorKind::NotFound => Outcome::NotFound,
        FsErrorKind::PermissionDenied => Outcome::PermissionDenied,
        _ => Outcome::Unknown(UnknownDetail::Io(kind)),
    }
}

/// The status code reported when an operation succeeds.
pub const STATUS_OK: u16 = 200;

/// The status code reported for a `PermissionDenied` outcome.
pub const STATUS_FORBIDDEN: u16 = 403;

/// The status code reported for a `NotFound` outcome.
pub const STATUS_NOT_FOUND: u16 = 404;

/// The status code reported for an `Unknown` outcome.
pub const STATUS_INTERNAL_ERROR: u16 = 500;

/// The status code each failure outcome maps to.
pub open spec fn spec_status_of(outcome: Outcome) -> u16 {
    match outcome {
        Outcome::NotFound => STATUS_NOT_FOUND,
        Outcome::PermissionDenied => STATUS_FORBIDDEN,
        Outcome::Unknown(_) => STATUS_INTERNAL_ERROR,
    }
}

/// Maps a failure outcome to its response status code: not-found to 404,
/// permission-denied to 403, and everything else to 500.
pub fn status_of(outcome: Outcome) -> (r: u16)
    ensures
        r == spec_status_of(outcome),
{
    match outcome {
        Outcome::NotFound => STATUS_NOT_FOUND,
        Outcome::PermissionDenied => STATUS_FORBIDDEN,
        Outcome::Unknown(_) => STATUS_INTERNAL_ERROR,
    }
}

} // verus!
