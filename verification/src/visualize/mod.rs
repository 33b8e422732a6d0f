//! From a listing and a theme to the artifact: the composed document as
//! markup, for a vector file or for the raster backend.

use crate::args::filetypes::Filetype;
use crate::args::themes::{Theme, ThemeView};
use crate::fs_parser::fs_structs::{entry_views, EntryView, FlatFsEntry};
use crate::visualize::svg_helper::fonts::base64_len;
use crate::visualize::svg_helper::layout::MAX_ROWS;
use crate::visualize::svg_helper::render::document_markup;
use crate::visualize::svg_helper::{
    compose_svg_from_filestruct, composed, embedded_font, DocumentView,
};
use vstd::prelude::*;

pub mod svg_helper;

verus! {

/// A composed document, ready to be written out: its markup, the size of
/// its canvas in pixels, and the kind of file it is meant for.
#[derive(Debug, PartialEq, Eq)]
pub struct Rendering {
    pub svg: String,
    pub width: u64,
    pub height: u64,
    pub filetype: Filetype,
}

/// The document that is composed for a kind of file: the font is embedded
/// for a raster image in any case, and for a vector document on demand.
pub open spec fn document_for(
    s: Seq<EntryView>,
    widths: Seq<u32>,
    theme: ThemeView,
    font_bytes: Seq<u8>,
    filetype: Filetype,
    bake_font: bool,
    width: Option<u32>,
    height: Option<u32>,
) -> DocumentView {
    composed(
        s,
        widths,
        theme,
        embedded_font(theme, font_bytes, filetype == Filetype::PNG || bake_font),
        width,
        height,
    )
}

/// What `rendering` has to be for the given document and kind of file.
pub open spec fn renders(rendering: Rendering, doc: DocumentView, filetype: Filetype) -> bool {
    &&& rendering.svg@ == document_markup(doc)
    &&& rendering.width == doc.width
    &&& rendering.height == doc.height
    &&& rendering.filetype == filetype
}

/// Composes the vector document of a listing and writes it as markup. The
/// font is embedded if `bake_font` is set.
pub fn build_svg(
    filestructure: Vec<FlatFsEntry>,
    theme: Theme,
    label_widths: &Vec<u32>,
    font_bytes: &[u8],
    bake_font: bool,
    width: Option<u32>,
    height: Option<u32>,
) -> (rendering: Rendering)
    requires
        label_widths.len() == filestructure.len(),
        filestructure.len() <= MAX_ROWS,
        bake_font ==> base64_len(font_bytes@.len() as int) <= isize::MAX,
    ensures
        renders(
            rendering,
            document_for(
                entry_views(filestructure@),
                label_widths@,
                theme@,
                font_bytes@,
                Filetype::SVG,
                bake_font,
                width,
                height,
            ),
            Filetype::SVG,
        ),
{
    let document = compose_svg_from_filestruct(
        filestructure,
        theme,
        label_widths,
        font_bytes,
        bake_font,
        width,
        height,
    );
    Rendering {
        svg: document.to_svg(),
        width: document.width,
        height: document.height,
        filetype: Filetype::SVG,
    }
}

/// Composes the document that the raster backend captures, and writes it as
/// markup. The font is always embedded: the backend must not depend on the
/// fonts that happen to be installed.
pub fn build_png(
    filestructure: Vec<FlatFsEntry>,
    theme: Theme,
    label_widths: &Vec<u32>,
    font_bytes: &[u8],
    width: Option<u32>,
    height: Option<u32>,
) -> (rendering: Rendering)
    requires
        label_widths.len() == filestructure.len(),
        filestructure.len() <= MAX_ROWS,
        base64_len(font_bytes@.len() as int) <= isize::MAX,
    ensures
        renders(
            rendering,
            document_for(
                entry_views(filestructure@),
                label_widths@,
                theme@,
                font_bytes@,
                Filetype::PNG,
                true,
                width,
                height,
            ),
            Filetype::PNG,
        ),
{
    let document = compose_svg_from_filestruct(
        filestructure,
        theme,
        label_widths,
        font_bytes,
        true,
        width,
        height,
    );
    Rendering {
        svg: document.to_svg(),
        width: document.width,
        height: document.height,
        filetype: Filetype::PNG,
    }
}

/// Renders a listing for the chosen kind of file.
///
/// `label_widths` holds the measured width of the label of each entry and
/// `font_bytes` the outline data of the theme's font. The result holds the
/// markup of the composed document and the size of its canvas; a raster
/// image made from it has the same size in pixels.
pub fn visualize(
    filestructure: Vec<FlatFsEntry>,
    theme: Theme,
    filetype: Filetype,
    label_widths: &Vec<u32>,
    font_bytes: &[u8],
    bake_font: bool,
    width: Option<u32>,
    height: Option<u32>,
) -> (rendering: Rendering)
    requires
        label_widths.len() == filestructure.len(),
        filestructure.len() <= MAX_ROWS,
        filetype == Filetype::PNG || bake_font ==> base64_len(font_bytes@.len() as int)
            <= isize::MAX,
    ensures
        renders(
            rendering,
            document_for(
                entry_views(filestructure@),
                label_widths@,
                theme@,
                font_bytes@,
                filetype,
                bake_font,
                width,
                height,
            ),
            filetype,
        ),
{
    match filetype {
        Filetype::SVG => build_svg(
            filestructure,
            theme,
            label_widths,
            font_bytes,
            bake_font,
            width,
            height,
        ),
        Filetype::PNG => build_png(filestructure, theme, label_widths, font_bytes, width, height),
    }
}

/// The path to write to: the path as given if it has an extension, else
/// the path with the canonical extension of the file type after a dot.
pub open spec fn output_path_spec(path: Seq<char>, has_extension: bool, filetype: Filetype) -> Seq<
    char,
> {
    if has_extension {
        path
    } else {
        path + "."@ + filetype.name_spec()
    }
}

/// Decides where the artifact is written: a path that lacks an extension
/// gets the canonical one of the file type, any other path stays as it is.
/// Whether the path has an extension is for the caller to find out.
pub fn output_path(path: &str, has_extension: bool, filetype: Filetype) -> (target: String)
    ensures
        target@ == output_path_spec(path@, has_extension, filetype),
{
    if has_extension {
        path.to_owned()
    } else {
        path.to_owned().concat(".").concat(filetype.extension())
    }
}

} // verus!
