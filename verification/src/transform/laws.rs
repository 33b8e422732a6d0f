//! What holds of collapsing on every pre-order listing.

use crate::fs_parser::fs_structs::{well_formed, EntryView, FsEntryType};
use crate::transform::{
    chain_child, chain_last, collapse_range, collapse_spec, collapsible, deeper_run_end, is_child,
    lemma_chain_last, lemma_deeper_run_end, lifted, lifted_all, merged_entry, sole_child,
    subtree_end,
};
use vstd::prelude::*;

verus! {

/// No entry of the listing is collapsible: no folder has a folder as its
/// one and only direct child.
pub open spec fn fully_collapsed(s: Seq<EntryView>) -> bool {
    forall|i: int| !#[trigger] collapsible(s, i)
}

/// Entry `i` and the entry after it are folders one level apart that share
/// their last descendant.
pub open spec fn tight(s: Seq<EntryView>, i: int) -> bool {
    &&& 0 <= i && i + 1 < s.len()
    &&& s[i].kind == FsEntryType::Folder
    &&& s[i + 1].kind == FsEntryType::Folder
    &&& s[i + 1].depth == s[i].depth + 1
    &&& subtree_end(s, i + 1) == subtree_end(s, i)
}

/// The entries from `i` up to `end` hold the descendants of each of them.
pub open spec fn closed(s: Seq<EntryView>, i: int, end: int) -> bool {
    &&& 0 <= i <= end <= s.len()
    &&& forall|m: int| i <= m < end ==> #[trigger] subtree_end(s, m) <= end
}

/// A run of deeper entries ends at `e` as soon as every entry from `j` up to
/// `e` is deeper than `depth` and the entry at `e`, if there is one, is not.
pub proof fn lemma_deeper_run_end_is(s: Seq<EntryView>, depth: int, j: int, e: int)
    requires
        0 <= j <= e <= s.len(),
        forall|m: int| j <= m < e ==> (#[trigger] s[m]).depth > depth,
        e < s.len() ==> s[e].depth <= depth,
    ensures
        deeper_run_end(s, depth, j) == e,
    decreases e - j,
{
    if j < e {
        lemma_deeper_run_end_is(s, depth, j + 1, e);
    }
}

/// In a pre-order listing the only child of a collapsible entry is the next
/// entry, and both have the same last descendant.
pub proof fn lemma_chain_step(s: Seq<EntryView>, i: int)
    requires
        well_formed(s),
        collapsible(s, i),
    ensures
        chain_child(s, i) == i + 1,
        i + 1 < s.len(),
        s[i + 1].kind == FsEntryType::Folder,
        s[i + 1].depth == s[i].depth + 1,
        subtree_end(s, i + 1) == subtree_end(s, i),
{
    let c = chain_child(s, i);
    let e = subtree_end(s, i);
    let e1 = subtree_end(s, i + 1);
    assert(sole_child(s, i, c));
    lemma_deeper_run_end(s, s[i].depth, i + 1);
    assert(s[i + 1].depth > s[i].depth);
    assert(is_child(s, i, i + 1));
    assert(c == i + 1);
    lemma_deeper_run_end(s, s[i + 1].depth, i + 2);
    if e1 < e {
        assert(s[e1].depth > s[i].depth);
        assert(is_child(s, i, e1));
    }
    if e < e1 {
        assert(s[e].depth > s[i + 1].depth);
    }
}

/// In a pre-order listing a chain is a run of consecutive folders, each one
/// level below the one before, that share their last descendant.
pub proof fn lemma_chain_shape(s: Seq<EntryView>, i: int)
    requires
        well_formed(s),
        0 <= i < s.len(),
    ensures
        i <= chain_last(s, i) < s.len(),
        !collapsible(s, chain_last(s, i)),
        s[chain_last(s, i)].depth - s[i].depth == chain_last(s, i) - i,
        subtree_end(s, chain_last(s, i)) == subtree_end(s, i),
        i < subtree_end(s, i) <= s.len(),
        collapsible(s, i) ==> i < chain_last(s, i) && s[chain_last(s, i)].kind
            == FsEntryType::Folder,
    decreases s.len() - i,
{
    lemma_deeper_run_end(s, s[i].depth, i + 1);
    if collapsible(s, i) {
        lemma_chain_step(s, i);
        lemma_chain_shape(s, i + 1);
    }
}

/// In a pre-order listing the collapsible entries are the tight ones.
pub proof fn lemma_collapsible_iff_tight(s: Seq<EntryView>, i: int)
    requires
        well_formed(s),
    ensures
        collapsible(s, i) <==> tight(s, i),
{
    if collapsible(s, i) {
        lemma_chain_step(s, i);
    }
    if tight(s, i) {
        lemma_deeper_run_end(s, s[i].depth, i + 1);
        lemma_deeper_run_end(s, s[i + 1].depth, i + 2);
        assert(is_child(s, i, i + 1));
        assert forall|j: int| #[trigger] is_child(s, i, j) implies j == i + 1 by {
            if j > i + 1 {
                assert(s[j].depth > s[i + 1].depth);
            }
        }
        assert(sole_child(s, i, i + 1));
    }
}

/// The descendants of an entry hold the descendants of each of them.
proof fn lemma_closed_below(s: Seq<EntryView>, p: int)
    requires
        0 <= p < s.len(),
    ensures
        closed(s, p + 1, subtree_end(s, p)),
        closed(s, p, subtree_end(s, p)),
        p < subtree_end(s, p) <= s.len(),
{
    let e = subtree_end(s, p);
    lemma_deeper_run_end(s, s[p].depth, p + 1);
    assert forall|m: int| p < m < e implies #[trigger] subtree_end(s, m) <= e by {
        lemma_deeper_run_end(s, s[m].depth, m + 1);
        if e < subtree_end(s, m) {
            assert(s[e].depth > s[m].depth);
        }
    }
}

/// Two pre-order listings joined end to end form one, provided the second
/// starts no more than one level below the end of the first.
proof fn lemma_concat_well_formed(a: Seq<EntryView>, b: Seq<EntryView>)
    requires
        well_formed(a),
        well_formed(b),
        a.len() > 0 && b.len() > 0 ==> b[0].depth <= a[a.len() - 1].depth + 1,
    ensures
        well_formed(a + b),
{
    let t = a + b;
    assert forall|k: int| 0 <= k && k + 1 < t.len() implies (#[trigger] t[k + 1]).depth <= t[k].depth
        + 1 by {
        if k + 1 < a.len() {
            assert(t[k + 1] == a[k + 1]);
            assert(t[k] == a[k]);
        } else if k + 1 == a.len() {
            assert(t[k + 1] == b[0]);
            assert(t[k] == a[a.len() - 1]);
        } else {
            assert(t[k + 1] == b[k - a.len() + 1]);
            assert(t[k] == b[k - a.len()]);
        }
    }
}

/// What the scan emits for a range that is not empty starts with an entry
/// of the depth and kind of the first entry of the range.
pub proof fn lemma_collapse_range_first(s: Seq<EntryView>, i: int, end: int)
    requires
        0 <= i < end <= s.len(),
    ensures
        collapse_range(s, i, end).len() >= 1,
        collapse_range(s, i, end)[0].depth == s[i].depth,
        collapse_range(s, i, end)[0].kind == s[i].kind,
{
    if collapsible(s, i) {
        let last = chain_last(s, i);
        let below = subtree_end(s, last);
        let rest = lifted_all(collapse_range(s, last + 1, below), s[last].depth - s[i].depth)
            + collapse_range(s, below, end);
        assert(collapse_range(s, i, end) =~= seq![merged_entry(s, i)] + rest);
    } else {
        assert(collapse_range(s, i, end) =~= seq![s[i]] + collapse_range(s, i + 1, end));
    }
}

/// What the scan emits for a range of entries that are all deeper than
/// `floor` is deeper than `floor` throughout.
proof fn lemma_collapse_range_floor(s: Seq<EntryView>, i: int, end: int, floor: int)
    requires
        0 <= i,
        end <= s.len(),
        forall|m: int| i <= m < end ==> (#[trigger] s[m]).depth > floor,
    ensures
        forall|q: int|
            0 <= q < collapse_range(s, i, end).len() ==> (#[trigger] collapse_range(
                s,
                i,
                end,
            )[q]).depth > floor,
    decreases s.len() - i,
{
    let u = collapse_range(s, i, end);
    if i < end {
        if collapsible(s, i) {
            let last = chain_last(s, i);
            let below = subtree_end(s, last);
            let lift = s[last].depth - s[i].depth;
            let inner = collapse_range(s, last + 1, below);
            let r = lifted_all(inner, lift);
            let v = collapse_range(s, below, end);
            lemma_chain_last(s, i);
            lemma_deeper_run_end(s, s[last].depth, last + 1);
            lemma_collapse_range_floor(s, last + 1, below, s[last].depth);
            lemma_collapse_range_floor(s, below, end, floor);
            assert(u == seq![merged_entry(s, i)] + r + v);
            assert forall|q: int| 0 <= q < u.len() implies (#[trigger] u[q]).depth > floor by {
                if q == 0 {
                    assert(u[0] == merged_entry(s, i));
                } else if q <= r.len() {
                    assert(u[q] == r[q - 1]);
                    assert(r[q - 1] == lifted(inner[q - 1], lift));
                } else {
                    assert(u[q] == v[q - 1 - r.len()]);
                }
            }
        } else {
            let v = collapse_range(s, i + 1, end);
            lemma_collapse_range_floor(s, i + 1, end, floor);
            assert(u == seq![s[i]] + v);
            assert forall|q: int| 0 <= q < u.len() implies (#[trigger] u[q]).depth > floor by {
                if q > 0 {
                    assert(u[q] == v[q - 1]);
                }
            }
        }
    }
}

/// What the scan emits for a chain: the merged entry, then entries that
/// are all deeper than it and start one level below it, then an entry that
/// is not deeper, if the range goes on.
proof fn lemma_chain_block(s: Seq<EntryView>, i: int, end: int)
    requires
        well_formed(s),
        collapsible(s, i),
        i < end <= s.len(),
    ensures
        ({
            let last = chain_last(s, i);
            let below = subtree_end(s, last);
            let lift = s[last].depth - s[i].depth;
            let inner = collapse_range(s, last + 1, below);
            let r = lifted_all(inner, lift);
            let v = collapse_range(s, below, end);
            &&& i < last < below <= s.len()
            &&& below == subtree_end(s, i)
            &&& s[last].kind == FsEntryType::Folder
            &&& !collapsible(s, last)
            &&& collapse_range(s, i, end) == seq![merged_entry(s, i)] + r + v
            &&& r.len() == inner.len()
            &&& forall|q: int| 0 <= q < r.len() ==> #[trigger] r[q] == lifted(inner[q], lift)
            &&& forall|q: int| 0 <= q < r.len() ==> (#[trigger] r[q]).depth > s[i].depth
            &&& inner.len() > 0 <==> last + 1 < below
            &&& inner.len() > 0 ==> inner[0].depth == s[last].depth + 1 && inner[0].kind
                == s[last + 1].kind
            &&& v.len() > 0 <==> below < end
            &&& v.len() > 0 ==> v[0].depth <= s[i].depth
        }),
{
    let last = chain_last(s, i);
    let below = subtree_end(s, last);
    let lift = s[last].depth - s[i].depth;
    let inner = collapse_range(s, last + 1, below);
    let r = lifted_all(inner, lift);
    let v = collapse_range(s, below, end);
    lemma_chain_shape(s, i);
    lemma_deeper_run_end(s, s[last].depth, last + 1);
    lemma_deeper_run_end(s, s[i].depth, i + 1);
    lemma_collapse_range_floor(s, last + 1, below, s[last].depth);
    assert forall|q: int| 0 <= q < r.len() implies (#[trigger] r[q]).depth > s[i].depth by {
        assert(r[q] == lifted(inner[q], lift));
    }
    if last + 1 < below {
        lemma_collapse_range_first(s, last + 1, below);
        assert(s[last + 1].depth > s[last].depth);
        assert(s[last + 1].depth <= s[last].depth + 1);
    }
    if below < end {
        lemma_collapse_range_first(s, below, end);
    }
}

/// Lifting a listing keeps it in pre-order.
proof fn lemma_lift_well_formed(u: Seq<EntryView>, by: int)
    requires
        well_formed(u),
    ensures
        well_formed(lifted_all(u, by)),
{
    let r = lifted_all(u, by);
    assert forall|k: int| 0 <= k && k + 1 < r.len() implies (#[trigger] r[k + 1]).depth <= r[k].depth
        + 1 by {
        assert(r[k + 1] == lifted(u[k + 1], by));
        assert(r[k] == lifted(u[k], by));
    }
}

/// What the scan emits for any range of a pre-order listing is a pre-order
/// listing.
pub proof fn lemma_collapse_range_well_formed(s: Seq<EntryView>, i: int, end: int)
    requires
        well_formed(s),
        0 <= i,
        end <= s.len(),
    ensures
        well_formed(collapse_range(s, i, end)),
    decreases s.len() - i,
{
    if i < end {
        if collapsible(s, i) {
            let last = chain_last(s, i);
            let below = subtree_end(s, last);
            let lift = s[last].depth - s[i].depth;
            let head = seq![merged_entry(s, i)];
            let inner = collapse_range(s, last + 1, below);
            let r = lifted_all(inner, lift);
            let v = collapse_range(s, below, end);
            lemma_chain_block(s, i, end);
            lemma_collapse_range_well_formed(s, last + 1, below);
            lemma_collapse_range_well_formed(s, below, end);
            lemma_lift_well_formed(inner, lift);
            if r.len() > 0 {
                assert(r[0] == lifted(inner[0], lift));
            }
            lemma_concat_well_formed(head, r);
            assert((head + r)[(head + r).len() - 1].depth >= s[i].depth) by {
                if r.len() > 0 {
                    assert((head + r)[(head + r).len() - 1] == r[r.len() - 1]);
                } else {
                    assert((head + r)[(head + r).len() - 1] == head[0]);
                }
            }
            lemma_concat_well_formed(head + r, v);
        } else {
            let head = seq![s[i]];
            let v = collapse_range(s, i + 1, end);
            lemma_collapse_range_well_formed(s, i + 1, end);
            if i + 1 < end {
                lemma_collapse_range_first(s, i + 1, end);
                assert(s[i + 1].depth <= s[i].depth + 1);
            }
            lemma_concat_well_formed(head, v);
        }
    }
}

/// Collapsing keeps a listing in pre-order: where no entry of the input lies
/// more than one level below the entry before it, none of the output does.
pub proof fn lemma_collapse_keeps_pre_order(s: Seq<EntryView>)
    requires
        well_formed(s),
    ensures
        well_formed(collapse_spec(s)),
{
    lemma_collapse_range_well_formed(s, 0, s.len() as int);
}

/// The scan of a range passes every point up to which the entries hold
/// their own descendants: what it emits is what it emits up to that point,
/// followed by what it emits from there on.
proof fn lemma_collapse_range_split(s: Seq<EntryView>, j: int, mid: int, end: int)
    requires
        well_formed(s),
        closed(s, j, mid),
        mid <= end <= s.len(),
    ensures
        collapse_range(s, j, end) == collapse_range(s, j, mid) + collapse_range(s, mid, end),
    decreases s.len() - j,
{
    let whole = collapse_range(s, j, end);
    let front = collapse_range(s, j, mid);
    let back = collapse_range(s, mid, end);
    if j >= mid {
        assert(whole =~= front + back);
    } else {
        assert(subtree_end(s, j) <= mid);
        if collapsible(s, j) {
            let below = subtree_end(s, chain_last(s, j));
            lemma_chain_block(s, j, end);
            lemma_chain_block(s, j, mid);
            lemma_collapse_range_split(s, below, mid, end);
            assert(whole =~= front + back);
        } else {
            lemma_collapse_range_split(s, j + 1, mid, end);
            assert(whole =~= front + back);
        }
    }
}

/// What the scan emits from an entry on, in a range that holds the
/// descendants of its entries: first what it emits for the entry and its
/// descendants, which starts with an entry of the depth and kind of the
/// entry and is deeper from there on; then, if the range goes on, an entry
/// that is not deeper.
proof fn lemma_subtree_block(s: Seq<EntryView>, a: int, end: int)
    requires
        well_formed(s),
        closed(s, a, end),
        a < end,
    ensures
        ({
            let front = collapse_range(s, a, subtree_end(s, a));
            let back = collapse_range(s, subtree_end(s, a), end);
            let whole = collapse_range(s, a, end);
            &&& a < subtree_end(s, a) <= end
            &&& whole == front + back
            &&& front.len() >= 1
            &&& whole[0].depth == s[a].depth
            &&& whole[0].kind == s[a].kind
            &&& forall|q: int| 1 <= q < front.len() ==> (#[trigger] front[q]).depth > s[a].depth
            &&& back.len() > 0 <==> subtree_end(s, a) < end
            &&& back.len() > 0 ==> back[0].depth <= s[a].depth
            &&& deeper_run_end(whole, s[a].depth, 1) == front.len()
        }),
{
    let e = subtree_end(s, a);
    let front = collapse_range(s, a, e);
    let back = collapse_range(s, e, end);
    let whole = collapse_range(s, a, end);
    assert(subtree_end(s, a) <= end);
    lemma_closed_below(s, a);
    lemma_deeper_run_end(s, s[a].depth, a + 1);
    lemma_collapse_range_split(s, a, e, end);
    lemma_collapse_range_first(s, a, e);
    lemma_collapse_range_first(s, a, end);
    if collapsible(s, a) {
        lemma_chain_block(s, a, e);
        let last = chain_last(s, a);
        let r = lifted_all(collapse_range(s, last + 1, e), s[last].depth - s[a].depth);
        assert(front =~= seq![merged_entry(s, a)] + r);
        assert forall|q: int| 1 <= q < front.len() implies (#[trigger] front[q]).depth
            > s[a].depth by {
            assert(front[q] == r[q - 1]);
        }
    } else {
        let v = collapse_range(s, a + 1, e);
        lemma_collapse_range_floor(s, a + 1, e, s[a].depth);
        assert(front == seq![s[a]] + v);
        assert forall|q: int| 1 <= q < front.len() implies (#[trigger] front[q]).depth
            > s[a].depth by {
            assert(front[q] == v[q - 1]);
        }
    }
    if e < end {
        lemma_collapse_range_first(s, e, end);
    }
    assert forall|q: int| 1 <= q < front.len() implies (#[trigger] whole[q]).depth
        > s[a].depth by {
        assert(whole[q] == front[q]);
    }
    if back.len() > 0 {
        assert(whole[front.len() as int] == back[0]);
    }
    lemma_deeper_run_end_is(whole, s[a].depth, 1, front.len() as int);
}

/// A run of deeper entries in the back part of a joined sequence ends where
/// it ends in the back part alone.
proof fn lemma_run_end_behind(a: Seq<EntryView>, u: Seq<EntryView>, depth: int, k: int)
    requires
        0 <= k <= u.len(),
    ensures
        deeper_run_end(a + u, depth, a.len() + k) == a.len() + deeper_run_end(u, depth, k),
{
    let t = a + u;
    let e = deeper_run_end(u, depth, k);
    lemma_deeper_run_end(u, depth, k);
    assert forall|m: int| a.len() + k <= m < a.len() + e implies (#[trigger] t[m]).depth
        > depth by {
        assert(t[m] == u[m - a.len()]);
    }
    if e < u.len() {
        assert(t[a.len() + e] == u[e]);
    }
    lemma_deeper_run_end_is(t, depth, a.len() + k, a.len() + e);
}

/// A run of deeper entries in the front part of a joined sequence ends
/// where it ends in the front part alone, if the back part starts no deeper
/// than the run asks for.
proof fn lemma_run_end_before(u: Seq<EntryView>, w: Seq<EntryView>, depth: int, k: int)
    requires
        0 <= k <= u.len(),
        w.len() > 0 ==> w[0].depth <= depth,
    ensures
        deeper_run_end(u + w, depth, k) == deeper_run_end(u, depth, k),
{
    let t = u + w;
    let e = deeper_run_end(u, depth, k);
    lemma_deeper_run_end(u, depth, k);
    assert forall|m: int| k <= m < e implies (#[trigger] t[m]).depth > depth by {
        assert(t[m] == u[m]);
    }
    if e < u.len() {
        assert(t[e] == u[e]);
    } else if w.len() > 0 {
        assert(t[e] == w[0]);
    }
    lemma_deeper_run_end_is(t, depth, k, e);
}

/// A run of deeper entries ends at the same place after a lift.
proof fn lemma_run_end_lifted(u: Seq<EntryView>, by: int, depth: int, k: int)
    requires
        0 <= k <= u.len(),
    ensures
        deeper_run_end(lifted_all(u, by), depth - by, k) == deeper_run_end(u, depth, k),
    decreases u.len() - k,
{
    if k < u.len() {
        assert(lifted_all(u, by)[k] == lifted(u[k], by));
        if u[k].depth > depth {
            lemma_run_end_lifted(u, by, depth, k + 1);
        }
    }
}

/// An entry of the back part of a joined sequence is tight there if and
/// only if it is tight in the back part alone.
proof fn lemma_tight_behind(a: Seq<EntryView>, u: Seq<EntryView>, k: int)
    requires
        0 <= k,
    ensures
        tight(a + u, a.len() + k) <==> tight(u, k),
{
    let t = a + u;
    if k + 1 < u.len() {
        assert(t[a.len() + k] == u[k]);
        assert(t[a.len() + k + 1] == u[k + 1]);
        lemma_run_end_behind(a, u, u[k].depth, k + 1);
        lemma_run_end_behind(a, u, u[k + 1].depth, k + 2);
    }
}

/// An entry of the front part of a joined sequence is tight there if and
/// only if it is tight in the front part alone, if the front part is deeper
/// than `floor` throughout and the back part starts no deeper than `floor`.
proof fn lemma_tight_before(u: Seq<EntryView>, w: Seq<EntryView>, floor: int, k: int)
    requires
        forall|q: int| 0 <= q < u.len() ==> (#[trigger] u[q]).depth > floor,
        w.len() > 0 ==> w[0].depth <= floor,
        0 <= k < u.len(),
    ensures
        tight(u + w, k) <==> tight(u, k),
{
    let t = u + w;
    assert(t[k] == u[k]);
    if k + 1 < u.len() {
        assert(t[k + 1] == u[k + 1]);
        lemma_run_end_before(u, w, u[k].depth, k + 1);
        lemma_run_end_before(u, w, u[k + 1].depth, k + 2);
    } else if w.len() > 0 {
        assert(t[k + 1] == w[0]);
    }
}

/// An entry is tight after a lift if and only if it was tight before.
proof fn lemma_tight_lifted(u: Seq<EntryView>, by: int, k: int)
    ensures
        tight(lifted_all(u, by), k) <==> tight(u, k),
{
    let r = lifted_all(u, by);
    if 0 <= k && k + 1 < u.len() {
        assert(r[k] == lifted(u[k], by));
        assert(r[k + 1] == lifted(u[k + 1], by));
        lemma_run_end_lifted(u, by, u[k].depth, k + 1);
        lemma_run_end_lifted(u, by, u[k + 1].depth, k + 2);
    }
}

/// What the scan emits for a range of a pre-order listing that holds the
/// descendants of its entries has no tight entry.
proof fn lemma_collapse_range_no_tight(s: Seq<EntryView>, i: int, end: int)
    requires
        well_formed(s),
        closed(s, i, end),
    ensures
        forall|k: int| !#[trigger] tight(collapse_range(s, i, end), k),
    decreases s.len() - i,
{
    let u = collapse_range(s, i, end);
    if i < end {
        assert(subtree_end(s, i) <= end);
        if collapsible(s, i) {
            let last = chain_last(s, i);
            let below = subtree_end(s, last);
            let lift = s[last].depth - s[i].depth;
            let head = seq![merged_entry(s, i)];
            let inner = collapse_range(s, last + 1, below);
            let r = lifted_all(inner, lift);
            let v = collapse_range(s, below, end);
            lemma_chain_block(s, i, end);
            lemma_closed_below(s, last);
            lemma_collapse_range_no_tight(s, last + 1, below);
            lemma_collapse_range_no_tight(s, below, end);
            assert forall|k: int| !#[trigger] tight(u, k) by {
                if tight(u, k) {
                    if k > r.len() {
                        assert(u =~= (head + r) + v);
                        lemma_tight_behind(head + r, v, k - 1 - r.len());
                    } else if k >= 1 {
                        assert(u =~= head + (r + v));
                        lemma_tight_behind(head, r + v, k - 1);
                        lemma_tight_before(r, v, s[i].depth, k - 1);
                        lemma_tight_lifted(inner, lift, k - 1);
                    } else {
                        assert(u[0] == merged_entry(s, i));
                        if r.len() == 0 {
                            assert(u[1] == v[0]);
                        } else {
                            // the first lifted entry is a folder whose
                            // descendants are all the lifted entries, so
                            // the last member of the chain has one child
                            assert(u[1] == r[0]);
                            assert(r[0] == lifted(inner[0], lift));
                            assert forall|m: int| 1 <= m < 1 + r.len() implies (
                            #[trigger] u[m]).depth > u[0].depth by {
                                assert(u[m] == r[m - 1]);
                            }
                            if v.len() > 0 {
                                assert(u[1 + r.len() as int] == v[0]);
                            }
                            lemma_deeper_run_end_is(u, u[0].depth, 1, 1 + r.len() as int);
                            assert(u =~= head + (r + v));
                            lemma_run_end_behind(head, r + v, r[0].depth, 1);
                            lemma_run_end_before(r, v, r[0].depth, 1);
                            lemma_run_end_lifted(inner, lift, inner[0].depth, 1);
                            lemma_subtree_block(s, last + 1, below);
                            assert(subtree_end(s, last + 1) == below);
                            assert(tight(s, last));
                            lemma_collapsible_iff_tight(s, last);
                        }
                    }
                }
            }
        } else {
            let v = collapse_range(s, i + 1, end);
            lemma_collapse_range_no_tight(s, i + 1, end);
            assert(u == seq![s[i]] + v);
            assert forall|k: int| !#[trigger] tight(u, k) by {
                if tight(u, k) {
                    if k > 0 {
                        lemma_tight_behind(seq![s[i]], v, k - 1);
                    } else {
                        // the entry after entry `i` is a folder whose
                        // descendants are all the descendants of entry `i`
                        let e = subtree_end(s, i);
                        assert(u[0] == s[i]);
                        assert(u[1] == v[0]);
                        lemma_subtree_block(s, i, end);
                        lemma_subtree_block(s, i + 1, end);
                        lemma_run_end_behind(seq![s[i]], v, v[0].depth, 1);
                        lemma_closed_below(s, i);
                        lemma_deeper_run_end(s, s[i].depth, i + 1);
                        assert(i + 1 < e);
                        lemma_subtree_block(s, i + 1, e);
                        assert(collapse_range(s, i, e) =~= seq![s[i]] + collapse_range(
                            s,
                            i + 1,
                            e,
                        ));
                        assert(subtree_end(s, i + 1) == e);
                        assert(tight(s, i));
                        lemma_collapsible_iff_tight(s, i);
                    }
                }
            }
        }
    } else {
        assert(u.len() == 0);
    }
}

/// Collapsing merges every chain: in the result of collapsing a pre-order
/// listing no folder has a folder as its one and only direct child.
pub proof fn lemma_collapse_is_fully_collapsed(s: Seq<EntryView>)
    requires
        well_formed(s),
    ensures
        fully_collapsed(collapse_spec(s)),
{
    let t = collapse_spec(s);
    assert forall|m: int| 0 <= m < s.len() implies #[trigger] subtree_end(s, m) <= s.len() by {
        lemma_deeper_run_end(s, s[m].depth, m + 1);
    }
    lemma_collapse_range_well_formed(s, 0, s.len() as int);
    lemma_collapse_range_no_tight(s, 0, s.len() as int);
    assert forall|p: int| !#[trigger] collapsible(t, p) by {
        lemma_collapsible_iff_tight(t, p);
    }
}

/// Collapsing a listing that holds no collapsible folder changes nothing.
pub proof fn lemma_collapse_fixed_point(s: Seq<EntryView>, i: int)
    requires
        fully_collapsed(s),
        0 <= i <= s.len(),
    ensures
        collapse_range(s, i, s.len() as int) == s.subrange(i, s.len() as int),
    decreases s.len() - i,
{
    if i < s.len() {
        assert(!collapsible(s, i));
        lemma_collapse_fixed_point(s, i + 1);
        assert(seq![s[i]] + s.subrange(i + 1, s.len() as int) =~= s.subrange(i, s.len() as int));
    } else {
        assert(collapse_range(s, i, s.len() as int) =~= s.subrange(i, s.len() as int));
    }
}

/// Collapsing twice equals collapsing once, on every pre-order listing.
pub proof fn lemma_collapse_idempotent(s: Seq<EntryView>)
    requires
        well_formed(s),
    ensures
        collapse_spec(collapse_spec(s)) == collapse_spec(s),
{
    let t = collapse_spec(s);
    lemma_collapse_is_fully_collapsed(s);
    lemma_collapse_fixed_point(t, 0);
    assert(t.subrange(0, t.len() as int) =~= t);
}

} // verus!
