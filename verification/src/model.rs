//! Plain data models of the object store's entities: what the library reads
//! of commits and signatures, as values Verus can reason about.
use vstd::prelude::*;

verus! {

/// An author or committer signature: who, and when. The moment is kept as
/// seconds since the epoch together with the recorded UTC offset in minutes.
pub struct Ident {
    pub name: String,
    pub email: Option<String>,
    pub when_seconds: i64,
    pub when_offset_minutes: i32,
}

/// What the library reads of one commit.
pub struct CommitInfo {
    pub id: String,
    pub author: Ident,
    pub committer: Ident,
    pub message: String,
    pub parent_ids: Vec<String>,
    pub tree_id: String,
}

/// A local branch: its short name and the commit at its tip.
pub struct BranchInfo {
    pub name: String,
    pub tip_id: String,
}

/// An entry of a directory listing: a tree entry's name, file mode, and
/// whether it names a subtree.
pub struct TreeEntryInfo {
    pub name: String,
    pub mode: i32,
    pub is_tree: bool,
}

} // verus!
