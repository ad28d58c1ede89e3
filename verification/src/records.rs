//! The plain values that cross the bridge: what the host reports of a path,
//! and what the bridge answers.

use vstd::prelude::*;
use crate::error::HostError;

verus! {

/// What the host reports of a path's metadata.
#[derive(Debug, Clone, Copy, PartialEq, Eq, Structural)]
pub struct HostMetadata {
    /// The length in bytes.
    pub len: u64,
    pub is_dir: bool,
}

/// One entry of a directory, as the host enumerates it.
#[derive(Debug, Clone, PartialEq, Eq)]
pub struct HostDirEntry {
    pub name: String,
    pub is_dir: bool,
}

/// The answer to a metadata query.
#[derive(Debug, Clone, Copy, PartialEq, Eq, Structural)]
pub struct JsStat {
    pub size: u64,
    pub is_directory: bool,
    /// The modification time. The host gives none that can be relied on, so
    /// this is always 0.
    pub mtime: u64,
}

/// One entry of a directory listing.
#[derive(Debug, Clone, PartialEq, Eq)]
pub struct JsDirEntry {
    pub name: String,
    pub is_directory: bool,
}

impl JsDirEntry {
    /// The listing entry for a host entry.
    pub open spec fn lists(&self, entry: HostDirEntry) -> bool {
        self.name == entry.name && self.is_directory == entry.is_dir
    }

    /// The listing entry for a borrowed host entry.
    pub fn of_host(entry: &HostDirEntry) -> (e: JsDirEntry)
        ensures
            e.lists(*entry),
    {
        JsDirEntry { name: entry.name.clone(), is_directory: entry.is_dir }
    }

    /// A copy of the entry's name.
    pub fn name(&self) -> (n: String)
        ensures
            n == self.name,
    {
        self.name.clone()
    }
}


/// `i` is the place of the first failure in `items`.
pub open spec fn first_failure_at(items: Seq<Result<HostDirEntry, HostError>>, i: int) -> bool {
    &&& 0 <= i < items.len()
    &&& items[i] is Err
    &&& forall|j: int| 0 <= j < i ==> (#[trigger] items[j]) is Ok
}

/// `out` lists `items`, none of which is a failure, one for one and in order.
pub open spec fn lists_all(out: Seq<JsDirEntry>, items: Seq<Result<HostDirEntry, HostError>>) -> bool {
    &&& out.len() == items.len()
    &&& forall|j: int|
        0 <= j < items.len() ==> (#[trigger] items[j]) is Ok && out[j].lists(items[j]->Ok_0)
}

} // verus!
