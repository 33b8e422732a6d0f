//! Composing the diagram: the drawable primitives of every row and
//! connector, in the order in which they are drawn, on a canvas of the
//! right size.

use crate::args::themes::{HierarchyLineStyles, Theme, ThemeView};
use crate::fs_parser::fs_structs::{entry_views, EntryView, FlatFsEntry, FsEntryType};
use crate::visualize::svg_helper::fonts::{
    base64_len, base64_standard, build_b64_font_embed, font_face_style,
};
use crate::visualize::svg_helper::layout::{
    canvas_height, canvas_width, connectors_spec, layout, rows_spec, Connector, LayoutRow,
    BG_X_PADDING, DEPTH_OFFSET, MAX_ROWS, ROW_PITCH, TOP_PADDING,
};
use vstd::prelude::*;

pub mod fonts;
pub mod layout;
pub mod markup;
pub mod render;

verus! {

/// The space between the left edge of a label box and its text, and
/// between the text and the right edge.
pub const ITEM_BG_X_PADDING: u32 = 3;

/// Something to draw.
#[derive(Debug, PartialEq, Eq)]
pub enum Primitive {
    /// A style resource that carries the font.
    FontFace { css: String },
    /// A rectangle that fills the canvas.
    Background { color: String, corner_radius: u32 },
    /// A hierarchy line from `(x, y)` down: a plain vertical, or an elbow
    /// that stops at mid-row height and turns right.
    Line { x: u64, y: u64, elbow: bool, color: String },
    /// The label of a row at `(x, y)`: a box of the given width with the
    /// text on it.
    Label {
        kind: FsEntryType,
        text: String,
        x: u64,
        y: u64,
        box_width: u64,
        corner_radius: u32,
        font: String,
        font_size: u32,
        text_color: String,
        box_color: String,
    },
}

/// The mathematical value of a `Primitive`.
pub enum PrimitiveView {
    FontFace { css: Seq<char> },
    Background { color: Seq<char>, corner_radius: u32 },
    Line { x: u64, y: u64, elbow: bool, color: Seq<char> },
    Label {
        kind: FsEntryType,
        text: Seq<char>,
        x: u64,
        y: u64,
        box_width: u64,
        corner_radius: u32,
        font: Seq<char>,
        font_size: u32,
        text_color: Seq<char>,
        box_color: Seq<char>,
    },
}

impl View for Primitive {
    type V = PrimitiveView;

    open spec fn view(&self) -> PrimitiveView {
        match *self {
            Primitive::FontFace { css } => PrimitiveView::FontFace { css: css@ },
            Primitive::Background { color, corner_radius } => PrimitiveView::Background {
                color: color@,
                corner_radius,
            },
            Primitive::Line { x, y, elbow, color } => PrimitiveView::Line {
                x,
                y,
                elbow,
                color: color@,
            },
            Primitive::Label {
                kind,
                text,
                x,
                y,
                box_width,
                corner_radius,
                font,
                font_size,
                text_color,
                box_color,
            } => PrimitiveView::Label {
                kind,
                text: text@,
                x,
                y,
                box_width,
                corner_radius,
                font: font@,
                font_size,
                text_color: text_color@,
                box_color: box_color@,
            },
        }
    }
}

/// The views of a sequence of primitives, in order.
pub open spec fn primitive_views(primitives: Seq<Primitive>) -> Seq<PrimitiveView> {
    primitives.map_values(|p: Primitive| p@)
}

/// The composed diagram: a canvas and what is drawn on it, first to last.
#[derive(Debug, PartialEq, Eq)]
pub struct Document {
    pub width: u64,
    pub height: u64,
    pub primitives: Vec<Primitive>,
}

/// The mathematical value of a `Document`.
pub struct DocumentView {
    pub width: u64,
    pub height: u64,
    pub primitives: Seq<PrimitiveView>,
}

impl View for Document {
    type V = DocumentView;

    open spec fn view(&self) -> DocumentView {
        DocumentView {
            width: self.width,
            height: self.height,
            primitives: primitive_views(self.primitives@),
        }
    }
}

/// The label of a file: the measured width and a padding on either side
/// make the width of the box; the styles are those of files.
pub open spec fn file_label(name: Seq<char>, row: LayoutRow, theme: ThemeView) -> PrimitiveView {
    PrimitiveView::Label {
        kind: FsEntryType::File,
        text: name,
        x: row.x,
        y: row.y,
        box_width: (row.width + 2 * ITEM_BG_X_PADDING) as u64,
        corner_radius: theme.file_bg_corner_rad,
        font: theme.font,
        font_size: theme.file_font_size,
        text_color: theme.file_text_color,
        box_color: theme.file_bg_color,
    }
}

/// The label of a folder: as that of a file, with the styles of folders.
pub open spec fn folder_label(name: Seq<char>, row: LayoutRow, theme: ThemeView) -> PrimitiveView {
    PrimitiveView::Label {
        kind: FsEntryType::Folder,
        text: name,
        x: row.x,
        y: row.y,
        box_width: (row.width + 2 * ITEM_BG_X_PADDING) as u64,
        corner_radius: theme.folder_bg_corner_rad,
        font: theme.font,
        font_size: theme.folder_font_size,
        text_color: theme.folder_text_color,
        box_color: theme.folder_bg_color,
    }
}

/// The label of an entry on its row.
pub open spec fn label_of(entry: EntryView, row: LayoutRow, theme: ThemeView) -> PrimitiveView {
    match entry.kind {
        FsEntryType::File => file_label(entry.name, row, theme),
        FsEntryType::Folder => folder_label(entry.name, row, theme),
    }
}

/// The hierarchy line at a place, in the colour of the theme.
pub open spec fn hierarchy_line(x: u64, y: u64, is_last: bool, theme: ThemeView) -> PrimitiveView {
    PrimitiveView::Line { x, y, elbow: is_last, color: theme.hierarchy_line_color }
}

/// The font face, if a font is embedded.
pub open spec fn font_face_part(embed: Option<Seq<char>>) -> Seq<PrimitiveView> {
    match embed {
        Some(css) => seq![PrimitiveView::FontFace { css }],
        None => Seq::empty(),
    }
}

/// The background, if the theme has a background colour.
pub open spec fn background_part(theme: ThemeView) -> Seq<PrimitiveView> {
    match theme.bg_color {
        Some(color) => seq![
            PrimitiveView::Background { color, corner_radius: theme.bg_corner_rad },
        ],
        None => Seq::empty(),
    }
}

/// The hierarchy lines of all rows, row by row.
pub open spec fn lines_part(s: Seq<EntryView>, theme: ThemeView) -> Seq<PrimitiveView> {
    connectors_spec(s).map_values(|c: Connector| hierarchy_line(c.x, c.y, c.elbow, theme))
}

/// The labels of all rows, in order.
pub open spec fn labels_part(s: Seq<EntryView>, widths: Seq<u32>, theme: ThemeView) -> Seq<
    PrimitiveView,
> {
    Seq::new(s.len(), |i: int| label_of(s[i], rows_spec(s, widths)[i], theme))
}

/// Everything that is drawn, in the order of drawing: the font face if a
/// font is embedded, the background if the theme has one, all hierarchy
/// lines, then the label of each row.
pub open spec fn composed_primitives(
    s: Seq<EntryView>,
    widths: Seq<u32>,
    theme: ThemeView,
    embed: Option<Seq<char>>,
) -> Seq<PrimitiveView> {
    font_face_part(embed) + background_part(theme) + lines_part(s, theme) + labels_part(
        s,
        widths,
        theme,
    )
}

/// The diagram of a listing.
pub open spec fn composed(
    s: Seq<EntryView>,
    widths: Seq<u32>,
    theme: ThemeView,
    embed: Option<Seq<char>>,
    width: Option<u32>,
    height: Option<u32>,
) -> DocumentView {
    DocumentView {
        width: canvas_width(s, widths, width) as u64,
        height: canvas_height(s.len() as int, height) as u64,
        primitives: composed_primitives(s, widths, theme, embed),
    }
}

/// The style resource to embed, if embedding is asked for.
pub open spec fn embedded_font(theme: ThemeView, font_bytes: Seq<u8>, bake_font: bool) -> Option<
    Seq<char>,
> {
    if bake_font {
        Some(font_face_style(theme.font, base64_standard(font_bytes)))
    } else {
        None
    }
}

/// Composes the label of a file.
fn compose_file(name: &str, row: &LayoutRow, theme: &Theme) -> (label: Primitive)
    ensures
        label@ == file_label(name@, *row, theme@),
{
    Primitive::Label {
        kind: FsEntryType::File,
        text: name.to_owned(),
        x: row.x,
        y: row.y,
        box_width: row.width as u64 + 2 * ITEM_BG_X_PADDING as u64,
        corner_radius: theme.file_bg_corner_rad,
        font: theme.font.clone(),
        font_size: theme.file_font_size,
        text_color: theme.file_text_color.clone(),
        box_color: theme.file_bg_color.clone(),
    }
}

/// Composes the label of a folder.
fn compose_folder(name: &str, row: &LayoutRow, theme: &Theme) -> (label: Primitive)
    ensures
        label@ == folder_label(name@, *row, theme@),
{
    Primitive::Label {
        kind: FsEntryType::Folder,
        text: name.to_owned(),
        x: row.x,
        y: row.y,
        box_width: row.width as u64 + 2 * ITEM_BG_X_PADDING as u64,
        corner_radius: theme.folder_bg_corner_rad,
        font: theme.font.clone(),
        font_size: theme.folder_font_size,
        text_color: theme.folder_text_color.clone(),
        box_color: theme.folder_bg_color.clone(),
    }
}

/// Composes the hierarchy line that starts at `(x_pos, y_pos)`: an elbow if
/// the row is the last one below the ancestor, a plain vertical otherwise.
pub fn compose_hierarchy_line(x_pos: u64, y_pos: u64, is_last: bool, theme: &Theme) -> (line:
    Primitive)
    ensures
        line@ == hierarchy_line(x_pos, y_pos, is_last, theme@),
{
    match theme.hierarchy_line {
        HierarchyLineStyles::Default => Primitive::Line {
            x: x_pos,
            y: y_pos,
            elbow: is_last,
            color: theme.hierarchy_line_color.clone(),
        },
    }
}

/// Composes the diagram of a listing.
///
/// `label_widths` holds the measured width of the label of each entry, and
/// `font_bytes` the outline data of the theme's font, which is embedded if
/// `bake_font` is set. The primitives come in the order of drawing: the font
/// face, the background, the hierarchy lines, the labels. The canvas is as
/// wide and as high as `width` and `height` say; where they say nothing it
/// is as wide as the widest of the deepest rows needs, with a margin on
/// either side, and high enough for all rows.
pub fn compose_svg_from_filestruct(
    filestructure: Vec<FlatFsEntry>,
    theme: Theme,
    label_widths: &Vec<u32>,
    font_bytes: &[u8],
    bake_font: bool,
    width: Option<u32>,
    height: Option<u32>,
) -> (doc: Document)
    requires
        label_widths.len() == filestructure.len(),
        filestructure.len() <= MAX_ROWS,
        bake_font ==> base64_len(font_bytes@.len() as int) <= isize::MAX,
    ensures
        doc@ == composed(
            entry_views(filestructure@),
            label_widths@,
            theme@,
            embedded_font(theme@, font_bytes@, bake_font),
            width,
            height,
        ),
{
    let ghost s = entry_views(filestructure@);
    let ghost w = label_widths@;
    let ghost embed = embedded_font(theme@, font_bytes@, bake_font);
    let mut primitives: Vec<Primitive> = Vec::new();

    if bake_font {
        primitives.push(
            Primitive::FontFace { css: build_b64_font_embed(font_bytes, theme.font.as_str()) },
        );
    }
    assert(primitive_views(primitives@) =~= font_face_part(embed));

    match &theme.bg_color {
        Some(bg) => {
            primitives.push(
                Primitive::Background { color: bg.clone(), corner_radius: theme.bg_corner_rad },
            );
        },
        None => {},
    }
    assert(primitive_views(primitives@) =~= font_face_part(embed) + background_part(theme@));

    let placed = layout(&filestructure, label_widths);

    let ghost before_lines = primitive_views(primitives@);
    let mut k: usize = 0;
    while k < placed.connectors.len()
        invariant
            k <= placed.connectors.len(),
            placed.connectors@ == connectors_spec(s),
            primitive_views(primitives@) == before_lines + lines_part(s, theme@).take(k as int),
        decreases placed.connectors.len() - k,
    {
        let ghost before = primitive_views(primitives@);
        let c = &placed.connectors[k];
        primitives.push(compose_hierarchy_line(c.x, c.y, c.elbow, &theme));
        proof {
            assert(primitive_views(primitives@) =~= before.push(
                hierarchy_line(c.x, c.y, c.elbow, theme@),
            ));
            assert(lines_part(s, theme@).take(k as int + 1) =~= lines_part(s, theme@).take(
                k as int,
            ).push(hierarchy_line(c.x, c.y, c.elbow, theme@)));
        }
        k += 1;
    }
    assert(lines_part(s, theme@).take(k as int) =~= lines_part(s, theme@));

    let ghost before_labels = primitive_views(primitives@);
    let mut i: usize = 0;
    while i < filestructure.len()
        invariant
            i <= filestructure.len(),
            s == entry_views(filestructure@),
            w == label_widths@,
            placed.rows@ == rows_spec(s, w),
            primitive_views(primitives@) == before_labels + labels_part(s, w, theme@).take(
                i as int,
            ),
        decreases filestructure.len() - i,
    {
        let ghost before = primitive_views(primitives@);
        let entry = &filestructure[i];
        let row = &placed.rows[i];
        let label = match entry.entry_type {
            FsEntryType::File => compose_file(entry.name.as_str(), row, &theme),
            FsEntryType::Folder => compose_folder(entry.name.as_str(), row, &theme),
        };
        primitives.push(label);
        proof {
            let added = label_of(s[i as int], rows_spec(s, w)[i as int], theme@);
            assert(primitive_views(primitives@) =~= before.push(added));
            assert(labels_part(s, w, theme@).take(i as int + 1) =~= labels_part(
                s,
                w,
                theme@,
            ).take(i as int).push(added));
        }
        i += 1;
    }
    assert(labels_part(s, w, theme@).take(i as int) =~= labels_part(s, w, theme@));

    assert(placed.max_depth * DEPTH_OFFSET <= 0xffff_ffff * 20) by (nonlinear_arith)
        requires
            placed.max_depth <= 0xffff_ffff,
            DEPTH_OFFSET == 20,
    ;
    let computed_width = match width {
        Some(explicit) => explicit as u64,
        None => placed.max_label_width as u64 + placed.max_depth as u64 * DEPTH_OFFSET as u64 + 2
            * BG_X_PADDING as u64,
    };
    let computed_height = match height {
        Some(explicit) => explicit as u64,
        None => filestructure.len() as u64 * ROW_PITCH as u64 + TOP_PADDING as u64,
    };
    Document { width: computed_width, height: computed_height, primitives }
}

} // verus!
