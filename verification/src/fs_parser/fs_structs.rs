//! Entries of a flat pre-order listing, and their mathematical views.

use vstd::prelude::*;

verus! {

/// Whether an entry is a file or a folder.
#[derive(Debug, Clone, Copy, PartialEq, Eq, Structural)]
pub enum FsEntryType {
    File,
    Folder,
}

/// One row of a flat pre-order listing: a name, a kind and the depth below
/// the traversal root.
#[derive(Debug, PartialEq, Eq)]
pub struct FlatFsEntry {
    pub name: String,
    pub entry_type: FsEntryType,
    pub depth: u32,
}

/// The mathematical value of a `FlatFsEntry`.
pub struct EntryView {
    pub name: Seq<char>,
    pub kind: FsEntryType,
    pub depth: int,
}

impl View for FlatFsEntry {
    type V = EntryView;

    open spec fn view(&self) -> EntryView {
        EntryView { name: self.name@, kind: self.entry_type, depth: self.depth as int }
    }
}

impl Clone for FlatFsEntry {
    fn clone(&self) -> (res: Self)
        ensures
            res@ == self@,
    {
        FlatFsEntry { name: self.name.clone(), entry_type: self.entry_type, depth: self.depth }
    }
}

/// The views of a sequence of entries, in order.
pub open spec fn entry_views(entries: Seq<FlatFsEntry>) -> Seq<EntryView> {
    entries.map_values(|e: FlatFsEntry| e@)
}

/// A listing is a pre-order encoding when no entry lies more than one level
/// below the entry before it.
pub open spec fn well_formed(s: Seq<EntryView>) -> bool {
    forall|i: int| 0 <= i && i + 1 < s.len() ==> (#[trigger] s[i + 1]).depth <= s[i].depth + 1
}

} // verus!
