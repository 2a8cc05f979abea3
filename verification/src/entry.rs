//! The records the controller works on: credential entries and trusted
//! signers, and the change events a background watcher reports.

use vstd::prelude::*;

verus! {

/// One credential record as it appears in the index: the path-like
/// identifier and the optional last-modified timestamp (seconds).
/// The secret itself is never part of the index; it is fetched on
/// demand through the store collaborator.
#[derive(Debug, PartialEq, Eq)]
pub struct Entry {
    pub identifier: String,
    pub last_modified: Option<u64>,
}

impl Clone for Entry {
    fn clone(&self) -> (res: Self)
        ensures
            res == *self,
    {
        Entry { identifier: self.identifier.clone(), last_modified: self.last_modified }
    }
}

/// A trust principal authorized to decrypt the store.
#[derive(Debug, PartialEq, Eq)]
pub struct Signer {
    pub key_id: String,
    pub name: String,
}

impl Clone for Signer {
    fn clone(&self) -> (res: Self)
        ensures
            res == *self,
    {
        Signer { key_id: self.key_id.clone(), name: self.name.clone() }
    }
}

/// A notification from the background watcher describing one external
/// store mutation, or a watcher-side failure.
#[derive(Debug)]
pub enum ChangeEvent {
    EntryAdded(Entry),
    EntryChanged(Entry),
    EntryRemoved(String),
    WatchFailed(String),
}

} // verus!
