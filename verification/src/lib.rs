//! Filesystem snapshot engine: classifies a filesystem node from its raw
//! metadata, builds a typed entry tree from a raw snapshot of the node and
//! its children, decodes file content into lines, and maps every failure
//! onto a small, closed outcome taxonomy with its response status codes.
//!
//! The engine works on plain values alone: the caller performs the actual
//! filesystem reads and hands the results over as an [`entry::RawNode`] tree.

pub mod builder;
pub mod classify;
pub mod entry;
pub mod lines;
pub mod outcome;
