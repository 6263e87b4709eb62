//! The entry tree: the typed result of classifying and building a
//! filesystem node, and the raw snapshot tree the builder consumes.

use vstd::prelude::*;

use crate::lines::lines_view;
use crate::outcome::FsErrorKind;

verus! {

/// A regular file: its name, its canonical absolute path, and its decoded
/// content as an ordered sequence of text lines.
#[derive(Debug, PartialEq, Eq)]
pub struct FileEntry {
    /// The path segment as supplied or traversed, not canonicalized.
    pub name: String,
    /// The canonical absolute form of the same path, or the supplied form
    /// where canonicalization failed.
    pub path: String,
    /// The file's text, split into lines.
    pub content: Vec<String>,
}

/// A directory: its name, its canonical absolute path, and one built
/// entry per immediate child, in the order the children were yielded by
/// the directory iteration.
#[derive(Debug, PartialEq, Eq)]
pub struct DirEntry {
    /// The path segment as supplied or traversed, not canonicalized.
    pub name: String,
    /// The canonical absolute form of the same path, or the supplied form
    /// where canonicalization failed.
    pub path: String,
    /// The entries of the immediate children, in iteration order.
    pub content: Vec<FileType>,
}

/// A symbolic link together with its resolved target. Building one is the
/// engine's unfinished extension point: no constructor of the library
/// yields it, and the builder reports an unresolved-link failure instead.
#[derive(Debug, PartialEq, Eq)]
pub struct LinkEntry {
    /// The path segment as supplied or traversed, not canonicalized.
    pub name: String,
    /// The canonical absolute form of the same path, or the supplied form
    /// where canonicalization failed.
    pub path: String,
    /// The entry of the link's target.
    pub link: FileEntry,
}

/// The result of classifying and building one filesystem node: a closed
/// union over the four entry kinds. `Other` marks a node that is neither
/// file, directory, nor symbolic link, and carries no data.
#[derive(Debug, PartialEq, Eq)]
pub enum FileType {
    /// A regular file with its content.
    File(FileEntry),
    /// A directory with its children's entries.
    Dir(DirEntry),
    /// A symbolic link with its resolved target.
    Link(LinkEntry),
    /// Any other filesystem node.
    Other,
}

/// The mathematical model of a [`FileEntry`].
pub struct FileEntryV {
    /// The supplied path segment.
    pub name: Seq<char>,
    /// The canonical absolute path.
    pub path: Seq<char>,
    /// The lines of the file's text.
    pub content: Seq<Seq<char>>,
}

/// The mathematical model of a [`DirEntry`].
pub struct DirEntryV {
    /// The supplied path segment.
    pub name: Seq<char>,
    /// The canonical absolute path.
    pub path: Seq<char>,
    /// The children's entries, in iteration order.
    pub content: Seq<FileTypeV>,
}

/// The mathematical model of a [`LinkEntry`].
pub struct LinkEntryV {
    /// The supplied path segment.
    pub name: Seq<char>,
    /// The canonical absolute path.
    pub path: Seq<char>,
    /// The target's entry.
    pub link: FileEntryV,
}

/// The mathematical model of a [`FileType`].
pub enum FileTypeV {
    /// A regular file with its content.
    File(FileEntryV),
    /// A directory with its children's entries.
    Dir(DirEntryV),
    /// A symbolic link with its resolved target.
    Link(LinkEntryV),
    /// Any other filesystem node.
    Other,
}

/// The model of a file entry: each field's view.
pub open spec fn file_entry_view(e: FileEntry) -> FileEntryV {
    FileEntryV { name: e.name@, path: e.path@, content: lines_view(e.content@) }
}

/// The model of a link entry: each field's view.
pub open spec fn link_entry_view(e: LinkEntry) -> LinkEntryV {
    LinkEntryV { name: e.name@, path: e.path@, link: file_entry_view(e.link) }
}

/// The model of an entry: the model of the matching variant.
pub open spec fn file_type_view(e: FileType) -> FileTypeV
    decreases e,
{
    match e {
        FileType::File(f) => FileTypeV::File(file_entry_view(f)),
        FileType::Dir(d) => FileTypeV::Dir(dir_entry_view(d)),
        FileType::Link(l) => FileTypeV::Link(link_entry_view(l)),
        FileType::Other => FileTypeV::Other,
    }
}

/// The model of a directory entry: each field's view, the children
/// modelled elementwise.
pub open spec fn dir_entry_view(d: DirEntry) -> DirEntryV
    decreases d,
{
    DirEntryV { name: d.name@, path: d.path@, content: file_type_seq_view(d.content@) }
}

/// The models of a sequence of entries, in order.
pub open spec fn file_type_seq_view(s: Seq<FileType>) -> Seq<FileTypeV>
    decreases s,
{
    if s.len() == 0 {
        Seq::empty()
    } else {
        seq![file_type_view(s[0])] + file_type_seq_view(s.drop_first())
    }
}

/// The model of a sequence of entries has one element per entry: the
/// model of the entry at the same position.
pub proof fn lemma_file_type_seq_view(s: Seq<FileType>)
    ensures
        file_type_seq_view(s).len() == s.len(),
        forall|i: int| 0 <= i < s.len() ==> file_type_seq_view(s)[i] == file_type_view(s[i]),
    decreases s,
{
    if s.len() > 0 {
        lemma_file_type_seq_view(s.drop_first());
        assert(forall|i: int| 0 <= i < s.drop_first().len() ==> s.drop_first()[i] == s[i + 1]);
    }
}

impl View for FileEntry {
    type V = FileEntryV;

    open spec fn view(&self) -> FileEntryV {
        file_entry_view(*self)
    }
}

impl View for DirEntry {
    type V = DirEntryV;

    open spec fn view(&self) -> DirEntryV {
        dir_entry_view(*self)
    }
}

impl View for LinkEntry {
    type V = LinkEntryV;

    open spec fn view(&self) -> LinkEntryV {
        link_entry_view(*self)
    }
}

impl View for FileType {
    type V = FileTypeV;

    open spec fn view(&self) -> FileTypeV {
        file_type_view(*self)
    }
}

/// One node of the raw snapshot the caller gathers from the filesystem
/// and hands to the builder: the node's classification, the path strings,
/// and the result of each read the caller performed, errors included.
#[derive(Debug, PartialEq, Eq)]
pub enum RawNode {
    /// A regular file, with the result of reading it as text.
    File {
        /// The path segment as supplied or traversed.
        name: String,
        /// The canonical absolute path, or the supplied form where
        /// canonicalization failed.
        path: String,
        /// The file's text, or the error kind the read raised.
        read: Result<String, FsErrorKind>,
    },
    /// A directory, with the result of enumerating and snapshotting its
    /// immediate children, in iteration order.
    Dir {
        /// The path segment as supplied or traversed.
        name: String,
        /// The canonical absolute path, or the supplied form where
        /// canonicalization failed.
        path: String,
        /// The children's raw snapshots, or the error kind the
        /// enumeration raised.
        listing: Result<Vec<RawNode>, FsErrorKind>,
    },
    /// A symbolic link.
    Link {
        /// The path segment as supplied or traversed.
        name: String,
        /// The canonical absolute path, or the supplied form where
        /// canonicalization failed.
        path: String,
    },
    /// A node that is neither file, directory, nor symbolic link.
    Other,
    /// A node whose metadata query itself failed.
    Failed {
        /// The error kind the metadata query raised.
        err: FsErrorKind,
    },
}

/// The mathematical model of a [`RawNode`].
pub enum RawNodeV {
    /// A regular file with its read result.
    File {
        /// The supplied path segment.
        name: Seq<char>,
        /// The canonical absolute path.
        path: Seq<char>,
        /// The file's text, or the read's error kind.
        read: Result<Seq<char>, FsErrorKind>,
    },
    /// A directory with its enumeration result.
    Dir {
        /// The supplied path segment.
        name: Seq<char>,
        /// The canonical absolute path.
        path: Seq<char>,
        /// The children's raw models, or the enumeration's error kind.
        listing: Result<Seq<RawNodeV>, FsErrorKind>,
    },
    /// A symbolic link.
    Link {
        /// The supplied path segment.
        name: Seq<char>,
        /// The canonical absolute path.
        path: Seq<char>,
    },
    /// A node of any other kind.
    Other,
    /// A node whose metadata query failed.
    Failed {
        /// The error kind the metadata query raised.
        err: FsErrorKind,
    },
}

/// The model of a raw node: each field's view, a directory's children
/// modelled elementwise.
pub open spec fn raw_node_view(r: RawNode) -> RawNodeV
    decreases r,
{
    match r {
        RawNode::File { name, path, read } => RawNodeV::File {
            name: name@,
            path: path@,
            read: match read {
                Ok(text) => Ok(text@),
                Err(kind) => Err(kind),
            },
        },
        RawNode::Dir { name, path, listing } => RawNodeV::Dir {
            name: name@,
            path: path@,
            listing: match listing {
                Ok(children) => Ok(raw_node_seq_view(children@)),
                Err(kind) => Err(kind),
            },
        },
        RawNode::Link { name, path } => RawNodeV::Link { name: name@, path: path@ },
        RawNode::Other => RawNodeV::Other,
        RawNode::Failed { err } => RawNodeV::Failed { err },
    }
}

/// The models of a sequence of raw nodes, in order.
pub open spec fn raw_node_seq_view(s: Seq<RawNode>) -> Seq<RawNodeV>
    decreases s,
{
    if s.len() == 0 {
        Seq::empty()
    } else {
        seq![raw_node_view(s[0])] + raw_node_seq_view(s.drop_first())
    }
}

/// The model of a sequence of raw nodes has one element per node: the
/// model of the node at the same position.
pub proof fn lemma_raw_node_seq_view(s: Seq<RawNode>)
    ensures
        raw_node_seq_view(s).len() == s.len(),
        forall|i: int| 0 <= i < s.len() ==> raw_node_seq_view(s)[i] == raw_node_view(s[i]),
    decreases s,
{
    if s.len() > 0 {
        lemma_raw_node_seq_view(s.drop_first());
        assert(forall|i: int| 0 <= i < s.drop_first().len() ==> s.drop_first()[i] == s[i + 1]);
    }
}

impl View for RawNode {
    type V = RawNodeV;

    open spec fn view(&self) -> RawNodeV {
        raw_node_view(*self)
    }
}

} // verus!
