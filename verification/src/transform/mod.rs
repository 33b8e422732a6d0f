//! Structural simplification of a flat listing: chains of folders that each
//! hold nothing but one folder are merged into a single entry.

use crate::fs_parser::fs_structs::{entry_views, EntryView, FlatFsEntry, FsEntryType};
use vstd::prelude::*;

pub mod laws;


verus! {

/// The text that joins the names of a merged chain.
pub open spec fn separator() -> Seq<char> {
    seq!['/']
}

/// The first index at or after `j` whose entry is not deeper than `depth`,
/// or the length of `s` when every later entry is deeper.
pub open spec fn deeper_run_end(s: Seq<EntryView>, depth: int, j: int) -> int
    decreases s.len() - j,
{
    if 0 <= j < s.len() && s[j].depth > depth {
        deeper_run_end(s, depth, j + 1)
    } else {
        j
    }
}

/// The index just past the descendants of entry `i`.
pub open spec fn subtree_end(s: Seq<EntryView>, i: int) -> int {
    deeper_run_end(s, s[i].depth, i + 1)
}

/// Entry `j` is a direct child of entry `i`: it lies among the descendants
/// of `i`, exactly one level deeper.
pub open spec fn is_child(s: Seq<EntryView>, i: int, j: int) -> bool {
    &&& 0 <= i < j < s.len()
    &&& j < subtree_end(s, i)
    &&& s[j].depth == s[i].depth + 1
}

/// Entry `c` is the one and only direct child of entry `i`.
pub open spec fn sole_child(s: Seq<EntryView>, i: int, c: int) -> bool {
    &&& is_child(s, i, c)
    &&& forall|j: int| #[trigger] is_child(s, i, j) ==> j == c
}

/// Entry `i` starts or continues a chain: it is a folder whose only direct
/// child is a folder too.
pub open spec fn collapsible(s: Seq<EntryView>, i: int) -> bool {
    &&& 0 <= i < s.len()
    &&& s[i].kind == FsEntryType::Folder
    &&& exists|c: int| #[trigger] sole_child(s, i, c) && s[c].kind == FsEntryType::Folder
}

/// The only child of a collapsible entry.
pub open spec fn chain_child(s: Seq<EntryView>, i: int) -> int {
    choose|c: int| #[trigger] sole_child(s, i, c) && s[c].kind == FsEntryType::Folder
}

/// The last member of the chain that entry `i` starts: the first folder on
/// the way down that is not collapsible itself.
pub open spec fn chain_last(s: Seq<EntryView>, i: int) -> int
    decreases s.len() - i,
{
    if collapsible(s, i) {
        chain_last(s, chain_child(s, i))
    } else {
        i
    }
}

/// The names of the chain that entry `i` starts, joined by the separator.
pub open spec fn chain_name(s: Seq<EntryView>, i: int) -> Seq<char>
    decreases s.len() - i,
{
    if collapsible(s, i) {
        s[i].name + separator() + chain_name(s, chain_child(s, i))
    } else {
        s[i].name
    }
}

/// The single folder that stands for the chain starting at entry `i`.
pub open spec fn merged_entry(s: Seq<EntryView>, i: int) -> EntryView {
    EntryView { name: chain_name(s, i), kind: FsEntryType::Folder, depth: s[i].depth }
}

/// An entry lifted by `by` levels.
pub open spec fn lifted(e: EntryView, by: int) -> EntryView {
    EntryView { name: e.name, kind: e.kind, depth: e.depth - by }
}

/// A sequence of entries, each lifted by `by` levels.
pub open spec fn lifted_all(u: Seq<EntryView>, by: int) -> Seq<EntryView> {
    u.map_values(|e: EntryView| lifted(e, by))
}

/// What collapsing yields for the entries of `s` from index `i` up to `end`.
///
/// A collapsible entry is replaced by its merged chain. The descendants of
/// the chain's last member follow, collapsed in their turn and lifted by the
/// number of levels that the chain gave up; the scan resumes after them. Any
/// other entry is kept, and the scan moves to the next one.
pub open spec fn collapse_range(s: Seq<EntryView>, i: int, end: int) -> Seq<EntryView>
    decreases s.len() - i,
    via collapse_range_decreases
{
    if i < 0 || i >= end || i >= s.len() {
        Seq::empty()
    } else if collapsible(s, i) {
        let last = chain_last(s, i);
        let below = subtree_end(s, last);
        seq![merged_entry(s, i)] + lifted_all(
            collapse_range(s, last + 1, below),
            s[last].depth - s[i].depth,
        ) + collapse_range(s, below, end)
    } else {
        seq![s[i]] + collapse_range(s, i + 1, end)
    }
}

#[via_fn]
proof fn collapse_range_decreases(s: Seq<EntryView>, i: int, end: int) {
    if 0 <= i < s.len() && collapsible(s, i) {
        let last = chain_last(s, i);
        lemma_chain_last(s, i);
        lemma_deeper_run_end(s, s[last].depth, last + 1);
    }
}

/// The listing with every chain merged.
pub open spec fn collapse_spec(s: Seq<EntryView>) -> Seq<EntryView> {
    collapse_range(s, 0, s.len() as int)
}

/// A run of deeper entries ends inside the sequence, at an entry that is not
/// deeper, or at the end of the sequence.
pub proof fn lemma_deeper_run_end(s: Seq<EntryView>, depth: int, j: int)
    requires
        0 <= j <= s.len(),
    ensures
        j <= deeper_run_end(s, depth, j) <= s.len(),
        forall|m: int| j <= m < deeper_run_end(s, depth, j) ==> (#[trigger] s[m]).depth > depth,
        deeper_run_end(s, depth, j) < s.len() ==> s[deeper_run_end(s, depth, j)].depth <= depth,
    decreases s.len() - j,
{
    if j < s.len() && s[j].depth > depth {
        lemma_deeper_run_end(s, depth, j + 1);
    }
}

/// The members of a chain come one after the other, each one level deeper,
/// and the chain ends inside the sequence.
pub proof fn lemma_chain_last(s: Seq<EntryView>, i: int)
    requires
        0 <= i < s.len(),
    ensures
        i <= chain_last(s, i) < s.len(),
        !collapsible(s, chain_last(s, i)),
        s[chain_last(s, i)].depth >= s[i].depth,
        collapsible(s, i) ==> chain_last(s, i) > i,
    decreases s.len() - i,
{
    if collapsible(s, i) {
        lemma_chain_last(s, chain_child(s, i));
    }
}

/// The only folder child of entry `i`, if entry `i` is collapsible.
fn chain_link(entries: &Vec<FlatFsEntry>, i: usize) -> (link: Option<usize>)
    requires
        i < entries.len(),
    ensures
        link is Some <==> collapsible(entry_views(entries@), i as int),
        link matches Some(c) ==> c as int == chain_child(entry_views(entries@), i as int) && i < c
            < entries.len(),
{
    let ghost s = entry_views(entries@);
    match entries[i].entry_type {
        FsEntryType::File => None,
        FsEntryType::Folder => {
            let depth = entries[i].depth;
            let mut first: Option<usize> = None;
            let mut several = false;
            let ghost mut other: int = 0;
            let mut j = i + 1;
            while j < entries.len() && entries[j].depth > depth
                invariant
                    i < j <= entries.len(),
                    s == entry_views(entries@),
                    depth as int == s[i as int].depth,
                    deeper_run_end(s, depth as int, j as int) == subtree_end(s, i as int),
                    first is None ==> !several && forall|m: int|
                        i < m < j ==> (#[trigger] s[m]).depth != depth + 1,
                    first matches Some(c) ==> i < c < j && s[c as int].depth == depth + 1,
                    first matches Some(c) ==> !several ==> forall|m: int|
                        i < m < j && (#[trigger] s[m]).depth == depth + 1 ==> m == c,
                    first matches Some(c) ==> several ==> i < other < j && other != c
                        && s[other].depth == depth + 1,
                decreases entries.len() - j,
            {
                if entries[j].depth - 1 == depth {
                    if first.is_none() {
                        first = Some(j);
                    } else {
                        several = true;
                        proof {
                            other = j as int;
                        }
                    }
                }
                j += 1;
            }
            proof {
                lemma_deeper_run_end(s, depth as int, i as int + 1);
                assert(j as int == subtree_end(s, i as int));
            }
            match first {
                None => {
                    assert forall|c: int| !#[trigger] sole_child(s, i as int, c) by {
                        if is_child(s, i as int, c) {
                            assert(s[c].depth == depth + 1);
                        }
                    }
                    None
                },
                Some(c) => {
                    if several {
                        assert(is_child(s, i as int, c as int));
                        assert(is_child(s, i as int, other));
                        None
                    } else {
                        assert(is_child(s, i as int, c as int));
                        assert forall|m: int| #[trigger] is_child(s, i as int, m) implies m
                            == c by {
                            assert(s[m].depth == depth + 1);
                        }
                        assert(sole_child(s, i as int, c as int));
                        match entries[c].entry_type {
                            FsEntryType::File => None,
                            FsEntryType::Folder => Some(c),
                        }
                    }
                },
            }
        },
    }
}

/// Collapses the entries from `start` up to `end` and appends them to
/// `collapsed`, each lifted by `lift` levels.
fn collapse_into(
    entries: &Vec<FlatFsEntry>,
    start: usize,
    end: usize,
    lift: u32,
    collapsed: &mut Vec<FlatFsEntry>,
)
    requires
        start <= entries.len(),
        end <= entries.len(),
        forall|m: int| start <= m < end ==> (#[trigger] entry_views(entries@)[m]).depth >= lift,
    ensures
        entry_views(final(collapsed)@) == entry_views(old(collapsed)@) + lifted_all(
            collapse_range(entry_views(entries@), start as int, end as int),
            lift as int,
        ),
    decreases entries.len() - start,
{
    let ghost s = entry_views(entries@);
    let ghost before = entry_views(collapsed@);
    let ghost whole = lifted_all(collapse_range(s, start as int, end as int), lift as int);
    let n = entries.len();
    let mut i: usize = start;
    assert(before + whole =~= entry_views(collapsed@) + whole);
    while i < end
        invariant
            n == entries.len(),
            end <= n,
            s == entry_views(entries@),
            start <= i <= n,
            forall|m: int| start <= m < end ==> (#[trigger] s[m]).depth >= lift,
            whole == lifted_all(collapse_range(s, start as int, end as int), lift as int),
            entry_views(collapsed@) + lifted_all(collapse_range(s, i as int, end as int), lift as int)
                == before + whole,
        decreases n - i,
    {
        let ghost done = entry_views(collapsed@);
        let ghost rest = collapse_range(s, i as int, end as int);
        let mut link = chain_link(entries, i);
        assert(s[i as int].depth >= lift);
        if link.is_none() {
            let entry = &entries[i];
            collapsed.push(
                FlatFsEntry {
                    name: entry.name.clone(),
                    entry_type: entry.entry_type,
                    depth: entry.depth - lift,
                },
            );
            proof {
                let tail = collapse_range(s, i as int + 1, end as int);
                assert(rest == seq![s[i as int]] + tail);
                assert(entry_views(collapsed@) =~= done.push(lifted(s[i as int], lift as int)));
                assert(lifted_all(rest, lift as int) =~= seq![lifted(s[i as int], lift as int)]
                    + lifted_all(tail, lift as int));
                assert(done.push(lifted(s[i as int], lift as int)) + lifted_all(tail, lift as int)
                    =~= done + lifted_all(rest, lift as int));
            }
            i += 1;
        } else {
            let mut name = entries[i].name.clone();
            let mut last = i;
            let ghost mut prefix = Seq::<char>::empty();
            assert(name@ =~= prefix + s[last as int].name);
            assert(prefix + chain_name(s, last as int) =~= chain_name(s, i as int));
            while link.is_some()
                invariant
                    n == entries.len(),
                    s == entry_views(entries@),
                    i <= last < n,
                    link is Some <==> collapsible(s, last as int),
                    link matches Some(c) ==> c as int == chain_child(s, last as int) && last < c
                        < n,
                    chain_last(s, last as int) == chain_last(s, i as int),
                    prefix + chain_name(s, last as int) == chain_name(s, i as int),
                    name@ == prefix + s[last as int].name,
                    s[last as int].depth >= s[i as int].depth,
                decreases n - last,
            {
                let c = link.unwrap();
                proof {
                    reveal_strlit("/");
                    assert("/"@ =~= separator());
                    assert(sole_child(s, last as int, c as int));
                    assert(prefix + s[last as int].name + separator() + chain_name(s, c as int)
                        =~= prefix + chain_name(s, last as int));
                }
                name.append("/");
                name.append(entries[c].name.as_str());
                proof {
                    assert(name@ =~= prefix + s[last as int].name + separator() + s[c as int].name);
                    prefix = prefix + s[last as int].name + separator();
                }
                last = c;
                link = chain_link(entries, last);
            }
            let depth = entries[i].depth;
            let last_depth = entries[last].depth;
            let shift = last_depth - depth;
            collapsed.push(
                FlatFsEntry { name, entry_type: FsEntryType::Folder, depth: depth - lift },
            );
            let mut below = last + 1;
            while below < n && entries[below].depth > last_depth
                invariant
                    n == entries.len(),
                    s == entry_views(entries@),
                    last < below <= n,
                    last_depth as int == s[last as int].depth,
                    deeper_run_end(s, s[last as int].depth, below as int) == subtree_end(
                        s,
                        last as int,
                    ),
                    forall|m: int| last < m < below ==> (#[trigger] s[m]).depth > last_depth,
                decreases n - below,
            {
                below += 1;
            }
            let ghost merged = lifted(merged_entry(s, i as int), lift as int);
            let ghost inner = collapse_range(s, last as int + 1, below as int);
            let ghost tail = collapse_range(s, below as int, end as int);
            proof {
                assert(last as int == chain_last(s, i as int));
                assert(below as int == subtree_end(s, last as int));
                assert(entry_views(collapsed@) =~= done.push(merged));
                assert(rest == seq![merged_entry(s, i as int)] + lifted_all(inner, shift as int)
                    + tail);
            }
            collapse_into(entries, last + 1, below, lift + shift, collapsed);
            proof {
                assert(lifted_all(lifted_all(inner, shift as int), lift as int) =~= lifted_all(
                    inner,
                    lift + shift,
                ));
                assert(lifted_all(rest, lift as int) =~= seq![merged] + lifted_all(
                    inner,
                    lift + shift,
                ) + lifted_all(tail, lift as int));
                assert(entry_views(collapsed@) + lifted_all(tail, lift as int) =~= done
                    + lifted_all(rest, lift as int));
            }
            i = below;
        }
    }
    proof {
        assert(lifted_all(collapse_range(s, i as int, end as int), lift as int)
            =~= Seq::<EntryView>::empty());
        assert(entry_views(collapsed@) =~= before + whole);
    }
}

/// Merges every chain of folders that each hold nothing but one folder.
///
/// The merged entry carries the names of the chain joined by `/` and stands
/// at the depth of the chain's first member. The descendants of the chain's
/// last member follow it, collapsed in their turn, and their depth drops by
/// the number of levels that the chain gave up. Files, and folders with no
/// child, a file as only child or several children, are kept as they are.
pub fn collapse_folders(filestructure: Vec<FlatFsEntry>) -> (collapsed: Vec<FlatFsEntry>)
    ensures
        entry_views(collapsed@) == collapse_spec(entry_views(filestructure@)),
{
    let mut collapsed: Vec<FlatFsEntry> = Vec::new();
    collapse_into(&filestructure, 0, filestructure.len(), 0, &mut collapsed);
    proof {
        let whole = collapse_spec(entry_views(filestructure@));
        assert(lifted_all(whole, 0) =~= whole);
        assert(entry_views(collapsed@) =~= whole);
    }
    collapsed
}

/// Applies the transforms that the caller asked for: collapsing of folder
/// chains when `collapse_folders_flag` is set, nothing otherwise.
pub fn do_transforms(filestructure: Vec<FlatFsEntry>, collapse_folders_flag: bool) -> (res: Vec<
    FlatFsEntry,
>)
    ensures
        entry_views(res@) == if collapse_folders_flag {
            collapse_spec(entry_views(filestructure@))
        } else {
            entry_views(filestructure@)
        },
{
    if collapse_folders_flag {
        return collapse_folders(filestructure);
    }
    filestructure
}

} // verus!
