//! The flat, depth-annotated listing that every later stage works on, and
//! how it is made from what a directory walk reports.

use crate::fs_parser::fs_structs::{
    entry_views, well_formed, EntryView, FlatFsEntry, FsEntryType,
};
use vstd::prelude::*;

pub mod fs_structs;

verus! {

/// One entry as a directory walk reports it, in pre-order: its file name,
/// whether it is a directory, and how many levels it lies below the walk's
/// starting point, which itself has depth 0.
#[derive(Debug, PartialEq, Eq)]
pub struct WalkedEntry {
    pub name: String,
    pub is_dir: bool,
    pub depth: u32,
}

/// The mathematical value of a `WalkedEntry`.
pub struct WalkedView {
    pub name: Seq<char>,
    pub is_dir: bool,
    pub depth: int,
}

impl View for WalkedEntry {
    type V = WalkedView;

    open spec fn view(&self) -> WalkedView {
        WalkedView { name: self.name@, is_dir: self.is_dir, depth: self.depth as int }
    }
}

/// The views of a sequence of walked entries, in order.
pub open spec fn walked_views(walked: Seq<WalkedEntry>) -> Seq<WalkedView> {
    walked.map_values(|w: WalkedEntry| w@)
}

/// How deep the walk has to go so that the listing reaches `max_depth`:
/// one level more when the starting point itself is not listed.
pub open spec fn walk_depth_limit_spec(max_depth: u32, include_root: bool) -> int {
    if include_root {
        max_depth as int
    } else {
        max_depth + 1
    }
}

/// How deep the walk has to go so that the listing reaches `max_depth`.
pub fn walk_depth_limit(max_depth: u32, include_root: bool) -> (limit: u64)
    ensures
        limit == walk_depth_limit_spec(max_depth, include_root),
{
    if include_root {
        max_depth as u64
    } else {
        max_depth as u64 + 1
    }
}

/// The depth at which a walked entry is listed: its depth in the walk, or
/// one less when the starting point is not listed.
pub open spec fn listed_depth(w: WalkedView, include_root: bool) -> int {
    if include_root {
        w.depth
    } else {
        w.depth - 1
    }
}

/// Whether a walked entry is listed: the starting point only if it is asked
/// for, and nothing deeper than `max_depth`.
pub open spec fn is_listed(w: WalkedView, max_depth: int, include_root: bool) -> bool {
    &&& include_root || w.depth != 0
    &&& listed_depth(w, include_root) <= max_depth
}

/// The entry that a listed walked entry becomes.
pub open spec fn listed_entry(w: WalkedView, include_root: bool) -> EntryView {
    EntryView {
        name: w.name,
        kind: if w.is_dir {
            FsEntryType::Folder
        } else {
            FsEntryType::File
        },
        depth: listed_depth(w, include_root),
    }
}

/// The listing that a walk yields: its listed entries, in the order of the
/// walk.
pub open spec fn flat_listing(walked: Seq<WalkedView>, max_depth: int, include_root: bool) -> Seq<
    EntryView,
>
    decreases walked.len(),
{
    if walked.len() == 0 {
        Seq::empty()
    } else {
        let before = flat_listing(walked.drop_last(), max_depth, include_root);
        if is_listed(walked.last(), max_depth, include_root) {
            before.push(listed_entry(walked.last(), include_root))
        } else {
            before
        }
    }
}

/// Turns the entries that a directory walk reports into a flat listing.
///
/// With `include_root` the starting point of the walk is listed at depth 0
/// and everything else at its depth in the walk. Without it the starting
/// point is left out and every other entry is listed one level higher.
/// Entries that would be listed deeper than `max_depth` are left out.
pub fn parse_fs_flat(walked: Vec<WalkedEntry>, max_depth: u32, include_root: bool) -> (flat_entries:
    Vec<FlatFsEntry>)
    ensures
        entry_views(flat_entries@) == flat_listing(
            walked_views(walked@),
            max_depth as int,
            include_root,
        ),
{
    let ghost w = walked_views(walked@);
    let mut flat_entries: Vec<FlatFsEntry> = Vec::new();
    let mut i: usize = 0;
    assert(entry_views(flat_entries@) =~= flat_listing(w.take(0), max_depth as int, include_root));
    while i < walked.len()
        invariant
            i <= walked.len(),
            w == walked_views(walked@),
            entry_views(flat_entries@) == flat_listing(
                w.take(i as int),
                max_depth as int,
                include_root,
            ),
        decreases walked.len() - i,
    {
        let ghost before = entry_views(flat_entries@);
        proof {
            assert(w.take(i as int + 1).drop_last() =~= w.take(i as int));
            assert(w.take(i as int + 1).last() == w[i as int]);
        }
        let entry = &walked[i];
        if include_root || entry.depth != 0 {
            let depth = if include_root {
                entry.depth
            } else {
                entry.depth - 1
            };
            if depth <= max_depth {
                let entry_type = if entry.is_dir {
                    FsEntryType::Folder
                } else {
                    FsEntryType::File
                };
                flat_entries.push(FlatFsEntry { name: entry.name.clone(), entry_type, depth });
                assert(entry_views(flat_entries@) =~= before.push(
                    listed_entry(w[i as int], include_root),
                ));
            }
        }
        i += 1;
    }
    assert(w.take(walked.len() as int) =~= w);
    flat_entries
}

/// A walk is in pre-order when no entry lies more than one level below the
/// entry before it, and none above the starting point.
pub open spec fn pre_order_walk(walked: Seq<WalkedView>) -> bool {
    &&& forall|k: int| 0 <= k < walked.len() ==> (#[trigger] walked[k]).depth >= 0
    &&& forall|k: int|
        0 <= k && k + 1 < walked.len() ==> (#[trigger] walked[k + 1]).depth <= walked[k].depth + 1
}

/// The depth at which a walked entry would be listed, but no more than the
/// depth limit.
spec fn capped_depth(w: WalkedView, max_depth: int, include_root: bool) -> int {
    if listed_depth(w, include_root) <= max_depth {
        listed_depth(w, include_root)
    } else {
        max_depth
    }
}

proof fn lemma_listing_of_prefix(
    walked: Seq<WalkedView>,
    max_depth: int,
    include_root: bool,
    k: int,
)
    requires
        pre_order_walk(walked),
        0 <= max_depth,
        0 <= k <= walked.len(),
    ensures
        well_formed(flat_listing(walked.take(k), max_depth, include_root)),
        forall|i: int|
            0 <= i < flat_listing(walked.take(k), max_depth, include_root).len() ==> (
            #[trigger] flat_listing(walked.take(k), max_depth, include_root)[i]).depth >= 0,
        k > 0 && flat_listing(walked.take(k), max_depth, include_root).len() > 0 ==> capped_depth(
            walked[k - 1],
            max_depth,
            include_root,
        ) <= flat_listing(walked.take(k), max_depth, include_root).last().depth,
    decreases k,
{
    if k > 0 {
        let before = flat_listing(walked.take(k - 1), max_depth, include_root);
        let listing = flat_listing(walked.take(k), max_depth, include_root);
        lemma_listing_of_prefix(walked, max_depth, include_root, k - 1);
        assert(walked.take(k).drop_last() =~= walked.take(k - 1));
        assert(walked.take(k).last() == walked[k - 1]);
        if k > 1 {
            assert(walked[(k - 2) + 1].depth <= walked[k - 2].depth + 1);
        }
        if is_listed(walked[k - 1], max_depth, include_root) {
            let entry = listed_entry(walked[k - 1], include_root);
            assert(listing == before.push(entry));
            assert forall|i: int| 0 <= i && i + 1 < listing.len() implies (
            #[trigger] listing[i + 1]).depth <= listing[i].depth + 1 by {
                if i + 1 < before.len() {
                    assert(listing[i + 1] == before[i + 1]);
                    assert(listing[i] == before[i]);
                } else {
                    assert(listing[i] == before.last());
                }
            }
        }
    }
}

/// A pre-order walk yields a pre-order listing: leaving out the starting
/// point and what lies below the depth limit never puts an entry more than
/// one level below the entry before it.
pub proof fn lemma_listing_is_pre_order(
    walked: Seq<WalkedView>,
    max_depth: int,
    include_root: bool,
)
    requires
        pre_order_walk(walked),
        0 <= max_depth,
    ensures
        well_formed(flat_listing(walked, max_depth, include_root)),
{
    lemma_listing_of_prefix(walked, max_depth, include_root, walked.len() as int);
    assert(walked.take(walked.len() as int) =~= walked);
}

} // verus!
