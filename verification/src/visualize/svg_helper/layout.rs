//! The layout pass: one forward scan that places every row, draws the
//! connector of every ancestor level, and keeps the maxima that size the
//! canvas.

use crate::fs_parser::fs_structs::{entry_views, EntryView, FlatFsEntry};
use vstd::prelude::*;

verus! {

/// The height of a row.
pub const ROW_HEIGHT: u32 = 20;

/// The space between one row and the next.
pub const ROW_PADDING: u32 = 2;

/// The distance from the top of one row to the top of the next.
pub const ROW_PITCH: u32 = ROW_HEIGHT + ROW_PADDING;

/// The horizontal offset that each level of depth adds.
pub const DEPTH_OFFSET: u32 = 20;

/// The space above the first row.
pub const TOP_PADDING: u32 = ROW_HEIGHT + ROW_HEIGHT / 2;

/// The margin to the left of the shallowest rows, and to the right of the
/// widest of the deepest rows.
pub const BG_X_PADDING: u32 = 20;

/// How far the vertical part of an elbow reaches down: to mid-row height.
pub const ELBOW_DROP: u32 = ROW_PITCH / 2;

/// The length of the horizontal tail of an elbow.
pub const ELBOW_TAIL: u32 = DEPTH_OFFSET * 4 / 5;

/// The most rows that a layout can hold.
pub const MAX_ROWS: usize = 0xffff_ffff;

/// Where one entry is placed: the index of the entry, the left edge and the
/// base line of its row, and the measured width of its label.
#[derive(Debug, Clone, Copy, PartialEq, Eq, Structural)]
pub struct LayoutRow {
    pub index: usize,
    pub x: u64,
    pub y: u64,
    pub width: u32,
}

/// The hierarchy line that a row draws for one of its ancestor levels. It
/// starts at `(x, y)`, one row pitch above the base line of the row, and
/// runs down: the whole pitch if plain, or to mid-row height and then to the
/// right if it is an elbow.
#[derive(Debug, Clone, Copy, PartialEq, Eq, Structural)]
pub struct Connector {
    pub row: usize,
    pub level: u32,
    pub x: u64,
    pub y: u64,
    pub elbow: bool,
}

/// What the layout pass yields.
#[derive(Debug, PartialEq, Eq)]
pub struct Layout {
    pub rows: Vec<LayoutRow>,
    pub connectors: Vec<Connector>,
    pub max_depth: u32,
    pub max_label_width: u32,
}

/// The left edge of a row at the given depth.
pub open spec fn row_x(depth: int) -> int {
    depth * DEPTH_OFFSET + BG_X_PADDING
}

/// The base line of the row with the given index.
pub open spec fn row_y(index: int) -> int {
    index * ROW_PITCH + TOP_PADDING
}

/// Where the line of an ancestor level runs.
pub open spec fn connector_x(level: int) -> int {
    level * DEPTH_OFFSET + DEPTH_OFFSET / 2 + BG_X_PADDING
}

/// Where the connectors of a row start: one row pitch above its base line.
pub open spec fn connector_y(index: int) -> int {
    row_y(index) - ROW_PITCH
}

/// Row `i` is the last row below the ancestor at `level`: it is the last
/// row of all, or the next row is no deeper than `level`.
pub open spec fn ends_level(s: Seq<EntryView>, i: int, level: int) -> bool {
    i + 1 >= s.len() || s[i + 1].depth <= level
}

/// The placement of row `i`.
pub open spec fn row_at(s: Seq<EntryView>, widths: Seq<u32>, i: int) -> LayoutRow {
    LayoutRow {
        index: i as usize,
        x: row_x(s[i].depth) as u64,
        y: row_y(i) as u64,
        width: widths[i],
    }
}

/// The placements of all rows.
pub open spec fn rows_spec(s: Seq<EntryView>, widths: Seq<u32>) -> Seq<LayoutRow> {
    Seq::new(s.len(), |i: int| row_at(s, widths, i))
}

/// The connector that row `i` draws for the ancestor at `level`.
pub open spec fn connector_at(s: Seq<EntryView>, i: int, level: int) -> Connector {
    Connector {
        row: i as usize,
        level: level as u32,
        x: connector_x(level) as u64,
        y: connector_y(i) as u64,
        elbow: ends_level(s, i, level),
    }
}

/// The connectors of row `i`: one for each ancestor level, from the
/// shallowest on.
pub open spec fn row_connectors(s: Seq<EntryView>, i: int) -> Seq<Connector> {
    Seq::new(s[i].depth as nat, |level: int| connector_at(s, i, level))
}

/// The connectors of the first `k` rows, row by row.
pub open spec fn connectors_upto(s: Seq<EntryView>, k: int) -> Seq<Connector>
    decreases k,
{
    if k <= 0 {
        Seq::empty()
    } else {
        connectors_upto(s, k - 1) + row_connectors(s, k - 1)
    }
}

/// The connectors of all rows.
pub open spec fn connectors_spec(s: Seq<EntryView>) -> Seq<Connector> {
    connectors_upto(s, s.len() as int)
}

/// The deepest depth among the first `k` rows; 0 if there are none.
pub open spec fn max_depth_upto(s: Seq<EntryView>, k: int) -> int
    decreases k,
{
    if k <= 0 {
        0
    } else if s[k - 1].depth > max_depth_upto(s, k - 1) {
        s[k - 1].depth
    } else {
        max_depth_upto(s, k - 1)
    }
}

/// The deepest depth of the listing.
pub open spec fn max_depth(s: Seq<EntryView>) -> int {
    max_depth_upto(s, s.len() as int)
}

/// The widest label among those of the first `k` rows that lie at `depth`;
/// 0 if there are none.
pub open spec fn widest_at(s: Seq<EntryView>, widths: Seq<u32>, depth: int, k: int) -> int
    decreases k,
{
    if k <= 0 {
        0
    } else if s[k - 1].depth == depth && widths[k - 1] > widest_at(s, widths, depth, k - 1) {
        widths[k - 1] as int
    } else {
        widest_at(s, widths, depth, k - 1)
    }
}

/// The widest label among the rows at the deepest depth.
pub open spec fn max_label_width(s: Seq<EntryView>, widths: Seq<u32>) -> int {
    widest_at(s, widths, max_depth(s), s.len() as int)
}

/// The width of the canvas: the explicit width if there is one, else room
/// for the widest of the deepest rows with a margin on either side.
pub open spec fn canvas_width(s: Seq<EntryView>, widths: Seq<u32>, explicit: Option<u32>) -> int {
    match explicit {
        Some(width) => width as int,
        None => max_label_width(s, widths) + max_depth(s) * DEPTH_OFFSET + 2 * BG_X_PADDING,
    }
}

/// The height of the canvas: the explicit height if there is one, else
/// room for every row below the top padding.
pub open spec fn canvas_height(rows: int, explicit: Option<u32>) -> int {
    match explicit {
        Some(height) => height as int,
        None => rows * ROW_PITCH + TOP_PADDING,
    }
}

/// No row among the first `k` is deeper than their deepest depth.
pub proof fn lemma_max_depth_bounds(s: Seq<EntryView>, k: int)
    requires
        0 <= k <= s.len(),
        forall|i: int| 0 <= i < s.len() ==> (#[trigger] s[i]).depth >= 0,
    ensures
        max_depth_upto(s, k) >= 0,
        forall|i: int| 0 <= i < k ==> (#[trigger] s[i]).depth <= max_depth_upto(s, k),
        k > 0 ==> exists|i: int| 0 <= i < k && (#[trigger] s[i]).depth == max_depth_upto(s, k),
    decreases k,
{
    if k > 0 {
        lemma_max_depth_bounds(s, k - 1);
        if s[k - 1].depth > max_depth_upto(s, k - 1) || k == 1 {
            assert(s[k - 1].depth == max_depth_upto(s, k));
        } else {
            let i = choose|i: int| 0 <= i < k - 1 && (#[trigger] s[i]).depth == max_depth_upto(
                s,
                k - 1,
            );
            assert(s[i].depth == max_depth_upto(s, k));
        }
    }
}

/// The widest label at a depth is the width of no row at all, and then 0,
/// or that of a row at that depth; no row at that depth is wider.
pub proof fn lemma_widest_at_bounds(s: Seq<EntryView>, widths: Seq<u32>, depth: int, k: int)
    requires
        0 <= k <= s.len(),
        widths.len() == s.len(),
    ensures
        0 <= widest_at(s, widths, depth, k) <= u32::MAX,
        forall|i: int|
            0 <= i < k && (#[trigger] s[i]).depth == depth ==> widths[i] <= widest_at(
                s,
                widths,
                depth,
                k,
            ),
        (forall|i: int| 0 <= i < k ==> (#[trigger] s[i]).depth != depth) ==> widest_at(
            s,
            widths,
            depth,
            k,
        ) == 0,
    decreases k,
{
    if k > 0 {
        lemma_widest_at_bounds(s, widths, depth, k - 1);
    }
}

/// Widening labels never narrows the widest label at a depth.
pub proof fn lemma_widest_at_monotone(
    s: Seq<EntryView>,
    narrow: Seq<u32>,
    wide: Seq<u32>,
    depth: int,
    k: int,
)
    requires
        0 <= k <= s.len(),
        narrow.len() == s.len(),
        wide.len() == s.len(),
        forall|i: int| 0 <= i < s.len() ==> narrow[i] <= wide[i],
    ensures
        widest_at(s, narrow, depth, k) <= widest_at(s, wide, depth, k),
    decreases k,
{
    if k > 0 {
        lemma_widest_at_monotone(s, narrow, wide, depth, k - 1);
    }
}

/// Widening the label of any entry never narrows the canvas.
///
/// The labels are given by their measured widths: a longer name is one
/// whose measured width is no smaller.
pub proof fn lemma_canvas_width_monotone(
    s: Seq<EntryView>,
    narrow: Seq<u32>,
    wide: Seq<u32>,
    explicit: Option<u32>,
)
    requires
        narrow.len() == s.len(),
        wide.len() == s.len(),
        forall|i: int| 0 <= i < s.len() ==> narrow[i] <= wide[i],
    ensures
        canvas_width(s, narrow, explicit) <= canvas_width(s, wide, explicit),
{
    lemma_widest_at_monotone(s, narrow, wide, max_depth(s), s.len() as int);
}

/// What the depths of the first `k` rows add up to.
pub open spec fn depth_sum(s: Seq<EntryView>, k: int) -> int
    decreases k,
{
    if k <= 0 {
        0
    } else {
        depth_sum(s, k - 1) + s[k - 1].depth
    }
}

/// Every row draws one connector for each of its ancestor levels and no
/// other: the connectors of the first `k` rows are as many as the depths of
/// those rows add up to, and the connector of row `i` for the ancestor at
/// `level` stands after those of the rows before, at the index of its
/// level.
pub proof fn lemma_connector_place(s: Seq<EntryView>, k: int, i: int, level: int)
    requires
        0 <= i < k <= s.len(),
        0 <= level < s[i].depth,
        forall|j: int| 0 <= j < s.len() ==> (#[trigger] s[j]).depth >= 0,
    ensures
        connectors_upto(s, k).len() == depth_sum(s, k),
        0 <= depth_sum(s, i) + level < depth_sum(s, k),
        connectors_upto(s, k)[depth_sum(s, i) + level] == connector_at(s, i, level),
    decreases k,
{
    lemma_connectors_len(s, k);
    lemma_connectors_len(s, k - 1);
    lemma_connectors_len(s, i);
    lemma_depth_sum_monotone(s, i, k - 1);
    if i < k - 1 {
        lemma_connector_place(s, k - 1, i, level);
    }
}

/// The number of connectors of the first `k` rows.
pub proof fn lemma_connectors_len(s: Seq<EntryView>, k: int)
    requires
        0 <= k <= s.len(),
        forall|j: int| 0 <= j < s.len() ==> (#[trigger] s[j]).depth >= 0,
    ensures
        connectors_upto(s, k).len() == depth_sum(s, k),
        depth_sum(s, k) >= 0,
    decreases k,
{
    if k > 0 {
        lemma_connectors_len(s, k - 1);
    }
}

proof fn lemma_depth_sum_monotone(s: Seq<EntryView>, i: int, k: int)
    requires
        0 <= i <= k <= s.len(),
        forall|j: int| 0 <= j < s.len() ==> (#[trigger] s[j]).depth >= 0,
    ensures
        depth_sum(s, i) <= depth_sum(s, k),
    decreases k - i,
{
    if i < k {
        lemma_depth_sum_monotone(s, i, k - 1);
    }
}

/// Lays a listing out in one forward pass.
///
/// Row `i` stands at `x = depth * DEPTH_OFFSET + BG_X_PADDING` and
/// `y = i * ROW_PITCH + TOP_PADDING`. For each of its ancestor levels it
/// draws one connector, an elbow where the row is the last one below that
/// ancestor. The pass also yields the deepest depth and the widest label
/// among the rows at that depth.
pub fn layout(filestructure: &Vec<FlatFsEntry>, label_widths: &Vec<u32>) -> (res: Layout)
    requires
        label_widths.len() == filestructure.len(),
        filestructure.len() <= MAX_ROWS,
    ensures
        res.rows@ == rows_spec(entry_views(filestructure@), label_widths@),
        res.connectors@ == connectors_spec(entry_views(filestructure@)),
        res.max_depth == max_depth(entry_views(filestructure@)),
        res.max_label_width == max_label_width(entry_views(filestructure@), label_widths@),
{
    let ghost s = entry_views(filestructure@);
    let ghost w = label_widths@;
    let n = filestructure.len();
    let mut rows: Vec<LayoutRow> = Vec::new();
    let mut connectors: Vec<Connector> = Vec::new();
    let mut max_depth: u32 = 0;
    let mut max_label_width: u32 = 0;
    let mut i: usize = 0;
    while i < n
        invariant
            n == filestructure.len(),
            n == label_widths.len(),
            n <= MAX_ROWS,
            s == entry_views(filestructure@),
            w == label_widths@,
            i <= n,
            rows@.len() == i,
            forall|k: int| 0 <= k < i ==> #[trigger] rows@[k] == row_at(s, w, k),
            connectors@ == connectors_upto(s, i as int),
            max_depth == max_depth_upto(s, i as int),
            max_label_width == widest_at(s, w, max_depth as int, i as int),
        decreases n - i,
    {
        let depth = filestructure[i].depth;
        let width = label_widths[i];
        let x = depth as u64 * DEPTH_OFFSET as u64 + BG_X_PADDING as u64;
        let y = i as u64 * ROW_PITCH as u64 + TOP_PADDING as u64;
        rows.push(LayoutRow { index: i, x, y, width });

        let last = i + 1 == n;
        let next_depth = if last {
            0
        } else {
            filestructure[i + 1].depth
        };
        let ghost before = connectors@;
        let mut level: u32 = 0;
        while level < depth
            invariant
                n == filestructure.len(),
                s == entry_views(filestructure@),
                i < n <= MAX_ROWS,
                depth as int == s[i as int].depth,
                y as int == row_y(i as int),
                last == (i + 1 == n),
                !last ==> next_depth as int == s[i as int + 1].depth,
                level <= depth,
                connectors@ == before + row_connectors(s, i as int).take(level as int),
            decreases depth - level,
        {
            let elbow = last || next_depth <= level;
            connectors.push(
                Connector {
                    row: i,
                    level,
                    x: level as u64 * DEPTH_OFFSET as u64 + (DEPTH_OFFSET / 2) as u64
                        + BG_X_PADDING as u64,
                    y: y - ROW_PITCH as u64,
                    elbow,
                },
            );
            proof {
                assert(row_connectors(s, i as int).take(level as int + 1) =~= row_connectors(
                    s,
                    i as int,
                ).take(level as int).push(connector_at(s, i as int, level as int)));
            }
            level += 1;
        }
        proof {
            assert(row_connectors(s, i as int).take(depth as int) =~= row_connectors(s, i as int));
            lemma_max_depth_bounds(s, i as int);
            lemma_widest_at_bounds(s, w, depth as int, i as int);
        }
        if depth > max_depth {
            max_depth = depth;
            max_label_width = width;
        } else if depth == max_depth && width > max_label_width {
            max_label_width = width;
        }
        i += 1;
    }
    proof {
        assert(rows@ =~= rows_spec(s, w));
    }
    Layout { rows, connectors, max_depth, max_label_width }
}

} // verus!
