//! Plain values shared by the whole library.

use vstd::prelude::*;

verus! {

/// Index of a node in a scanned tree.
pub type NodeId = u32;

/// The scanned folder itself.
pub const ROOT: NodeId = 0;

/// The parent of the root: no node at all.
pub const NO_NODE: NodeId = 0xffff_ffff;

/// Which size of an entry is shown and sorted by.
#[derive(Clone, Copy, Debug, PartialEq, Eq, Structural)]
pub enum Metric {
    /// Space allocated on disk.
    Allocated,
    /// The file length.
    Logical,
}

/// The column the listing is sorted by.
#[derive(Clone, Copy, Debug, PartialEq, Eq, Structural)]
pub enum SortKey {
    Size,
    Name,
    Files,
}

/// What a node of the tree is.
#[derive(Clone, Copy, Debug, PartialEq, Eq, Structural)]
pub enum NodeKind {
    Dir,
    File,
    Link,
}

/// How a delete removes its target.
#[derive(Clone, Copy, Debug, PartialEq, Eq, Structural)]
pub enum DeleteMode {
    RecycleBin,
    Permanent,
}

/// A red, green, blue colour.
#[derive(Clone, Copy, Debug, PartialEq, Eq, Structural)]
pub struct Rgb {
    pub r: u8,
    pub g: u8,
    pub b: u8,
}

} // verus!

verus! {

/// How a delete ended.
pub enum DeleteOutcome {
    Deleted,
    /// The item no longer existed.
    AlreadyGone,
    /// The user cancelled a delete in progress.
    Cancelled,
    /// Some of a folder was removed; the reason for the rest.
    Partial(String),
    /// Nothing was removed; the reason.
    Failed(String),
}

/// Whether a path may be deleted.
pub enum Protection {
    /// Never delete this; the reason.
    Blocked(String),
    /// Allowed after a warning; the warning.
    Caution(String),
    Normal,
}

} // verus!
