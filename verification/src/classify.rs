//! The path classifier: from the raw metadata of a filesystem node,
//! decide which of the four entry kinds the path denotes, or report that
//! classification itself failed and with which outcome.

use vstd::prelude::*;

use crate::outcome::{FsErrorKind, Outcome, spec_outcome_of, outcome_of};

verus! {

/// The raw facts a metadata query reports about a filesystem node. The
/// query must not dereference symbolic links, so that a link is seen as a
/// link; under that convention at most one of the three flags is set.
/// Classification is nevertheless total over all flag combinations.
#[derive(Clone, Copy, Debug, PartialEq, Eq, Structural)]
pub struct MetaProbe {
    /// The node is a symbolic link.
    pub is_symlink: bool,
    /// The node is a directory.
    pub is_dir: bool,
    /// The node is a regular file.
    pub is_file: bool,
}

/// The result of classifying a path: exactly one of the four entry kinds,
/// or the outcome of the failed metadata query.
#[derive(Clone, Copy, Debug, PartialEq, Eq, Structural)]
pub enum ClassificationOutcome {
    /// The path denotes a regular file.
    IsFile,
    /// The path denotes a directory.
    IsDirectory,
    /// The path denotes a symbolic link.
    IsSymlink,
    /// The path denotes some other node (device, socket, FIFO, ...).
    IsOther,
    /// The metadata query failed; the outcome classifies the error.
    ClassifyFailed(Outcome),
}

/// The classification policy over the raw metadata flags. A symbolic link
/// is recognized first so that it is never masked by what it points at,
/// then a directory, then a regular file; anything else is `IsOther`.
pub open spec fn spec_classify_kind(probe: MetaProbe) -> ClassificationOutcome {
    if probe.is_symlink {
        ClassificationOutcome::IsSymlink
    } else if probe.is_dir {
        ClassificationOutcome::IsDirectory
    } else if probe.is_file {
        ClassificationOutcome::IsFile
    } else {
        ClassificationOutcome::IsOther
    }
}

/// What classification yields for a path: the kind from the metadata
/// flags when the query succeeded, else the failed query's outcome.
pub open spec fn spec_classify(meta: Result<MetaProbe, FsErrorKind>) -> ClassificationOutcome {
    match meta {
        Ok(probe) => spec_classify_kind(probe),
        Err(kind) => ClassificationOutcome::ClassifyFailed(spec_outcome_of(kind)),
    }
}

/// Classifies a node from its metadata flags alone.
pub fn classify_kind(probe: MetaProbe) -> (r: ClassificationOutcome)
    ensures
        r == spec_classify_kind(probe),
{
    if probe.is_symlink {
        ClassificationOutcome::IsSymlink
    } else if probe.is_dir {
        ClassificationOutcome::IsDirectory
    } else if probe.is_file {
        ClassificationOutcome::IsFile
    } else {
        ClassificationOutcome::IsOther
    }
}

/// Classifies a path from the result of its metadata query: exactly one
/// of the four entry kinds on success, `ClassifyFailed` with the error's
/// outcome otherwise.
pub fn classify(meta: &Result<MetaProbe, FsErrorKind>) -> (r: ClassificationOutcome)
    ensures
        r == spec_classify(*meta),
{
    match meta {
        Ok(probe) => classify_kind(*probe),
        Err(kind) => ClassificationOutcome::ClassifyFailed(outcome_of(*kind)),
    }
}

} // verus!
