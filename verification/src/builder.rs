//! The snapshot builder: turns a raw snapshot tree into the typed entry
//! tree, decoding file content into lines, building every child of a
//! directory in iteration order, and propagating the first failure of a
//! subtree to its top. One failing child fails the whole directory build:
//! failure is not isolated, by design. Building a symbolic link is the
//! unfinished extension point and reports a distinguishing failure.

use vstd::prelude::*;

use crate::classify::{ClassificationOutcome, MetaProbe, spec_classify};
use crate::entry::{
    DirEntry, DirEntryV, FileEntry, FileEntryV, FileType, FileTypeV, LinkEntry, RawNode, RawNodeV,
    file_type_seq_view, file_type_view, lemma_file_type_seq_view, lemma_raw_node_seq_view,
    raw_node_seq_view, raw_node_view,
};
use crate::lines::{spec_lines, split_lines};
use crate::outcome::{
    FsErrorKind, Outcome, STATUS_OK, UnknownDetail, outcome_of, spec_outcome_of, spec_status_of,
    status_of,
};

verus! {

/// What building a raw snapshot yields: a failed metadata query or a
/// failed read reports its error's outcome; a symbolic link reports the
/// unresolved-link failure; any other node yields its entry, a file's
/// content decoded into lines and a directory built child by child.
pub open spec fn spec_build(raw: RawNodeV) -> Result<FileTypeV, Outcome>
    decreases raw,
{
    match raw {
        RawNodeV::File { name, path, read } => match read {
            Ok(text) => Ok(
                FileTypeV::File(FileEntryV { name, path, content: spec_lines(text) }),
            ),
            Err(kind) => Err(spec_outcome_of(kind)),
        },
        RawNodeV::Dir { name, path, listing } => match listing {
            Ok(children) => match spec_build_children(children) {
                Ok(entries) => Ok(FileTypeV::Dir(DirEntryV { name, path, content: entries })),
                Err(outcome) => Err(outcome),
            },
            Err(kind) => Err(spec_outcome_of(kind)),
        },
        RawNodeV::Link { .. } => Err(Outcome::Unknown(UnknownDetail::UnresolvedLink)),
        RawNodeV::Other => Ok(FileTypeV::Other),
        RawNodeV::Failed { err } => Err(spec_outcome_of(err)),
    }
}

/// What building a directory's children yields: each child's entry, in
/// order, unless some child fails; then the first failing child's
/// outcome, and no entries at all.
pub open spec fn spec_build_children(children: Seq<RawNodeV>) -> Result<Seq<FileTypeV>, Outcome>
    decreases children,
{
    if children.len() == 0 {
        Ok(Seq::empty())
    } else {
        match spec_build(children[0]) {
            Ok(entry) => match spec_build_children(children.drop_first()) {
                Ok(rest) => Ok(seq![entry] + rest),
                Err(outcome) => Err(outcome),
            },
            Err(outcome) => Err(outcome),
        }
    }
}

/// Children that all build successfully build to exactly their entries.
proof fn lemma_build_children_ok(children: Seq<RawNodeV>, entries: Seq<FileTypeV>)
    requires
        entries.len() == children.len(),
        forall|j: int| 0 <= j < children.len()
            ==> spec_build(children[j]) == Ok::<FileTypeV, Outcome>(entries[j]),
    ensures
        spec_build_children(children) == Ok::<Seq<FileTypeV>, Outcome>(entries),
    decreases children,
{
    if children.len() == 0 {
        assert(entries =~= Seq::<FileTypeV>::empty());
    } else {
        let ct = children.drop_first();
        let et = entries.drop_first();
        assert(forall|j: int| 0 <= j < ct.len() ==> ct[j] == children[j + 1] && et[j] == entries[
            j + 1
        ]);
        lemma_build_children_ok(ct, et);
        assert(entries =~= seq![entries[0]] + et);
    }
}

/// A first failing child at any position fails the whole children build
/// with that child's outcome.
proof fn lemma_build_children_err(children: Seq<RawNodeV>, i: int, outcome: Outcome)
    requires
        0 <= i < children.len(),
        forall|j: int| 0 <= j < i ==> spec_build(#[trigger] children[j]) is Ok,
        spec_build(children[i]) == Err::<FileTypeV, Outcome>(outcome),
    ensures
        spec_build_children(children) == Err::<Seq<FileTypeV>, Outcome>(outcome),
    decreases children,
{
    if i > 0 {
        let ct = children.drop_first();
        assert(forall|j: int| 0 <= j < ct.len() ==> ct[j] == children[j + 1]);
        lemma_build_children_err(ct, i - 1, outcome);
    }
}

/// Builds a file entry from the supplied name, the canonical path, and
/// the result of reading the file as text: the entry holds the text split
/// into lines; a failed read yields its error's outcome.
pub fn create_file_entry(name: &String, path: &String, read: &Result<String, FsErrorKind>) -> (r:
    Result<FileEntry, Outcome>)
    ensures
        (match *read {
            Ok(text) => r matches Ok(e) && e@ == (FileEntryV {
                name: name@,
                path: path@,
                content: spec_lines(text@),
            }),
            Err(kind) => r matches Err(o) && o == spec_outcome_of(kind),
        }),
{
    match read {
        Ok(text) => {
            let content = split_lines(text.as_str());
            Ok(FileEntry { name: name.clone(), path: path.clone(), content })
        },
        Err(kind) => Err(outcome_of(*kind)),
    }
}

/// Builds a directory entry from the supplied name, the canonical path,
/// and the result of snapshotting the children: every child is built in
/// iteration order; the first failing child fails the whole directory
/// with its outcome, and a failed enumeration yields its error's outcome.
pub fn create_dir_entry(
    name: &String,
    path: &String,
    listing: &Result<Vec<RawNode>, FsErrorKind>,
) -> (r: Result<DirEntry, Outcome>)
    ensures
        (match *listing {
            Ok(children) => (match spec_build_children(raw_node_seq_view(children@)) {
                Ok(entries) => r matches Ok(d) && d@ == (DirEntryV {
                    name: name@,
                    path: path@,
                    content: entries,
                }),
                Err(outcome) => r matches Err(o) && o == outcome,
            }),
            Err(kind) => r matches Err(o) && o == spec_outcome_of(kind),
        }),
    decreases *listing,
{
    match listing {
        Ok(children) => {
            proof {
                assert(decreases_to!(*listing => *children));
            }
            match build_children(children) {
                Ok(entries) => Ok(
                    DirEntry { name: name.clone(), path: path.clone(), content: entries },
                ),
                Err(outcome) => Err(outcome),
            }
        },
        Err(kind) => Err(outcome_of(*kind)),
    }
}

/// Builds the entries of a directory's children, in iteration order,
/// stopping at the first child that fails.
fn build_children(children: &Vec<RawNode>) -> (r: Result<Vec<FileType>, Outcome>)
    ensures
        (match spec_build_children(raw_node_seq_view(children@)) {
            Ok(entries) => r matches Ok(v) && file_type_seq_view(v@) == entries,
            Err(outcome) => r matches Err(o) && o == outcome,
        }),
    decreases *children,
{
    let ghost cv = raw_node_seq_view(children@);
    proof {
        lemma_raw_node_seq_view(children@);
    }
    let mut entries: Vec<FileType> = Vec::new();
    let n: usize = children.len();
    let mut i: usize = 0;
    proof {
        lemma_file_type_seq_view(entries@);
    }
    while i < n
        invariant
            n == children@.len(),
            0 <= i <= n,
            cv == raw_node_seq_view(children@),
            cv.len() == n,
            forall|j: int| 0 <= j < cv.len() ==> cv[j] == raw_node_view(children@[j]),
            file_type_seq_view(entries@).len() == i,
            forall|j: int| 0 <= j < i
                ==> spec_build(#[trigger] cv[j]) == Ok::<FileTypeV, Outcome>(
                    file_type_seq_view(entries@)[j],
                ),
        decreases n - i,
    {
        let child_result = create_file_type(&children[i]);
        match child_result {
            Ok(entry) => {
                let ghost old_entries = entries@;
                entries.push(entry);
                proof {
                    lemma_file_type_seq_view(old_entries);
                    lemma_file_type_seq_view(entries@);
                    assert(forall|j: int| 0 <= j < old_entries.len() ==> entries@[j]
                        == old_entries[j]);
                }
            },
            Err(outcome) => {
                proof {
                    lemma_build_children_err(cv, i as int, outcome);
                }
                return Err(outcome);
            },
        }
        i = i + 1;
    }
    proof {
        lemma_file_type_seq_view(entries@);
        lemma_build_children_ok(cv, file_type_seq_view(entries@));
    }
    Ok(entries)
}

/// Builds a link entry. Resolving a symbolic link's target is the
/// engine's unfinished extension point: this always reports the
/// distinguishing unresolved-link failure instead of crashing.
pub fn create_link_entry(name: &String, path: &String) -> (r: Result<LinkEntry, Outcome>)
    ensures
        r matches Err(o) && o == Outcome::Unknown(UnknownDetail::UnresolvedLink),
{
    Err(Outcome::Unknown(UnknownDetail::UnresolvedLink))
}

/// Builds the entry for any raw snapshot node: dispatches on the node's
/// classification and yields exactly what [`spec_build`] says, the built
/// entry or the first failure's outcome.
pub fn create_file_type(raw: &RawNode) -> (r: Result<FileType, Outcome>)
    ensures
        (match spec_build(raw@) {
            Ok(entry) => r matches Ok(e) && file_type_view(e) == entry,
            Err(outcome) => r matches Err(o) && o == outcome,
        }),
    decreases *raw,
{
    match raw {
        RawNode::File { name, path, read } => match create_file_entry(name, path, read) {
            Ok(entry) => Ok(FileType::File(entry)),
            Err(outcome) => Err(outcome),
        },
        RawNode::Dir { name, path, listing } => {
            proof {
                assert(decreases_to!(*raw => *listing));
            }
            match create_dir_entry(name, path, listing) {
                Ok(entry) => Ok(FileType::Dir(entry)),
                Err(outcome) => Err(outcome),
            }
        },
        RawNode::Link { name, path } => match create_link_entry(name, path) {
            Ok(entry) => Ok(FileType::Link(entry)),
            Err(outcome) => Err(outcome),
        },
        RawNode::Other => Ok(FileType::Other),
        RawNode::Failed { err } => Err(outcome_of(*err)),
    }
}

/// Builds a file entry and maps the result to a status: 200 with the
/// entry on success, the failure's status and no entry otherwise.
pub fn create_file_entry_with_status(
    name: &String,
    path: &String,
    read: &Result<String, FsErrorKind>,
) -> (r: (u16, Option<FileEntry>))
    ensures
        (match *read {
            Ok(text) => r.0 == STATUS_OK && (r.1 matches Some(e) && e@ == (FileEntryV {
                name: name@,
                path: path@,
                content: spec_lines(text@),
            })),
            Err(kind) => r.0 == spec_status_of(spec_outcome_of(kind)) && r.1 is None,
        }),
{
    match create_file_entry(name, path, read) {
        Ok(entry) => (STATUS_OK, Some(entry)),
        Err(outcome) => (status_of(outcome), None),
    }
}

/// Builds a directory entry and maps the result to a status: 200 with the
/// entry on success, the failure's status and no entry otherwise.
pub fn create_dir_entry_with_status(
    name: &String,
    path: &String,
    listing: &Result<Vec<RawNode>, FsErrorKind>,
) -> (r: (u16, Option<DirEntry>))
    ensures
        (match *listing {
            Ok(children) => (match spec_build_children(raw_node_seq_view(children@)) {
                Ok(entries) => r.0 == STATUS_OK && (r.1 matches Some(d) && d@ == (DirEntryV {
                    name: name@,
                    path: path@,
                    content: entries,
                })),
                Err(outcome) => r.0 == spec_status_of(outcome) && r.1 is None,
            }),
            Err(kind) => r.0 == spec_status_of(spec_outcome_of(kind)) && r.1 is None,
        }),
{
    match create_dir_entry(name, path, listing) {
        Ok(entry) => (STATUS_OK, Some(entry)),
        Err(outcome) => (status_of(outcome), None),
    }
}

/// Builds a link entry and maps the result to a status: always the
/// unresolved-link failure's status and no entry.
pub fn create_link_entry_with_status(name: &String, path: &String) -> (r: (u16, Option<LinkEntry>))
    ensures
        r.0 == spec_status_of(Outcome::Unknown(UnknownDetail::UnresolvedLink)),
        r.1 is None,
{
    match create_link_entry(name, path) {
        Ok(entry) => (STATUS_OK, Some(entry)),
        Err(outcome) => (status_of(outcome), None),
    }
}

/// Builds the entry for any raw snapshot node and maps the result to a
/// status: 200 with the entry on success, the failure's status and no
/// entry otherwise.
pub fn create_file_type_with_status(raw: &RawNode) -> (r: (u16, Option<FileType>))
    ensures
        (match spec_build(raw@) {
            Ok(entry) => r.0 == STATUS_OK && (r.1 matches Some(e) && file_type_view(e) == entry),
            Err(outcome) => r.0 == spec_status_of(outcome) && r.1 is None,
        }),
{
    match create_file_type(raw) {
        Ok(entry) => (STATUS_OK, Some(entry)),
        Err(outcome) => (status_of(outcome), None),
    }
}

/// Building an existing, readable file succeeds, and the entry's content
/// is the file's text split into lines.
pub proof fn lemma_build_readable_file(name: Seq<char>, path: Seq<char>, text: Seq<char>)
    ensures
        spec_build(RawNodeV::File { name, path, read: Ok(text) }) == Ok::<FileTypeV, Outcome>(
            FileTypeV::File(FileEntryV { name, path, content: spec_lines(text) }),
        ),
{
}

/// Classification and building both report the outcome of a failed
/// metadata query: `NotFound` for a path that does not exist,
/// `PermissionDenied` where the OS denied access.
pub proof fn lemma_failed_query(kind: FsErrorKind)
    ensures
        spec_classify(Err(kind)) == ClassificationOutcome::ClassifyFailed(spec_outcome_of(kind)),
        spec_build(RawNodeV::Failed { err: kind }) == Err::<FileTypeV, Outcome>(
            spec_outcome_of(kind),
        ),
        kind == FsErrorKind::NotFound ==> spec_outcome_of(kind) == Outcome::NotFound,
        kind == FsErrorKind::PermissionDenied ==> spec_outcome_of(kind)
            == Outcome::PermissionDenied,
{
}

/// A file whose read fails reports the read error's outcome, so an
/// unreadable file yields `PermissionDenied` and a file that vanished
/// between query and read yields `NotFound`.
pub proof fn lemma_unreadable_file(name: Seq<char>, path: Seq<char>, kind: FsErrorKind)
    ensures
        spec_build(RawNodeV::File { name, path, read: Err(kind) }) == Err::<FileTypeV, Outcome>(
            spec_outcome_of(kind),
        ),
        kind == FsErrorKind::NotFound ==> spec_outcome_of(kind) == Outcome::NotFound,
        kind == FsErrorKind::PermissionDenied ==> spec_outcome_of(kind)
            == Outcome::PermissionDenied,
{
}

/// A directory with two buildable children, here a file and a directory,
/// builds to a `DirEntry` holding exactly those two entries in order.
pub proof fn lemma_build_dir_two_children(
    name: Seq<char>,
    path: Seq<char>,
    first: RawNodeV,
    second: RawNodeV,
    first_entry: FileTypeV,
    second_entry: FileTypeV,
)
    requires
        spec_build(first) == Ok::<FileTypeV, Outcome>(first_entry),
        spec_build(second) == Ok::<FileTypeV, Outcome>(second_entry),
    ensures
        spec_build(RawNodeV::Dir { name, path, listing: Ok(seq![first, second]) }) == Ok::<
            FileTypeV,
            Outcome,
        >(FileTypeV::Dir(DirEntryV { name, path, content: seq![first_entry, second_entry] })),
{
    let children = seq![first, second];
    let entries = seq![first_entry, second_entry];
    assert(children.len() == 2 && children[0] == first && children[1] == second);
    lemma_build_children_ok(children, entries);
}

/// Building is a pure function of the raw snapshot: two snapshots of an
/// unmodified path read equal raw trees, and equal raw trees build to
/// structurally equal results.
pub proof fn lemma_build_idempotent(first: RawNodeV, second: RawNodeV)
    requires
        first == second,
    ensures
        spec_build(first) == spec_build(second),
{
}

/// Failure is not isolated: where every child before position `i` builds
/// and the child at `i` fails, the whole directory build fails with that
/// child's outcome, however many children follow.
pub proof fn lemma_build_dir_fail_fast(
    name: Seq<char>,
    path: Seq<char>,
    children: Seq<RawNodeV>,
    i: int,
    outcome: Outcome,
)
    requires
        0 <= i < children.len(),
        forall|j: int| 0 <= j < i ==> spec_build(#[trigger] children[j]) is Ok,
        spec_build(children[i]) == Err::<FileTypeV, Outcome>(outcome),
    ensures
        spec_build(RawNodeV::Dir { name, path, listing: Ok(children) }) == Err::<
            FileTypeV,
            Outcome,
        >(outcome),
{
    lemma_build_children_err(children, i, outcome);
}

/// A symbolic link is classified as a link, never silently resolved, and
/// building it reports the distinguishing unresolved-link failure.
pub proof fn lemma_symlink(probe: MetaProbe, name: Seq<char>, path: Seq<char>)
    requires
        probe.is_symlink,
    ensures
        spec_classify(Ok(probe)) == ClassificationOutcome::IsSymlink,
        spec_build(RawNodeV::Link { name, path }) == Err::<FileTypeV, Outcome>(
            Outcome::Unknown(UnknownDetail::UnresolvedLink),
        ),
{
}

} // verus!
