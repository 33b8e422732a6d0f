//! What a caller chooses: where to read and write, the theme, the kind of
//! output and the size of the canvas.

use crate::args::filetypes::Filetype;
use crate::args::themes::{BuiltInThemes, Theme, ThemeView, Themes};
use vstd::prelude::*;

pub mod filetypes;
pub mod themes;

verus! {

/// The options of one run.
#[derive(Debug, PartialEq, Eq)]
pub struct Args {
    /// Path to the directory to visualize.
    pub input_path: String,
    /// Theme to use.
    pub theme: Themes,
    /// Output filetype.
    pub filetype: Filetype,
    /// Output filename or filepath.
    pub output_filepath: String,
    /// Max recursive depth.
    pub depth: u32,
    /// Include root folder.
    pub include_root: bool,
    /// Do not render the background colour.
    pub bg_transparent: bool,
    /// Absolute width of output.
    pub width: Option<u32>,
    /// Absolute height of output.
    pub height: Option<u32>,
    /// Bake font into the vector document.
    pub bake_font: bool,
}

/// A theme without its page background.
pub open spec fn without_background(theme: ThemeView) -> ThemeView {
    ThemeView {
        font: theme.font,
        folder_font_size: theme.folder_font_size,
        file_font_size: theme.file_font_size,
        folder_text_color: theme.folder_text_color,
        file_text_color: theme.file_text_color,
        folder_bg_color: theme.folder_bg_color,
        file_bg_color: theme.file_bg_color,
        bg_color: None,
        bg_corner_rad: theme.bg_corner_rad,
        folder_bg_corner_rad: theme.folder_bg_corner_rad,
        file_bg_corner_rad: theme.file_bg_corner_rad,
        hierarchy_line: theme.hierarchy_line,
        hierarchy_line_color: theme.hierarchy_line_color,
    }
}

impl Args {
    /// The options for a directory when nothing else is chosen: the default
    /// theme, a vector document named `glimmr_out`, three levels below the
    /// root, which itself is not listed, a background as the theme has it, a
    /// canvas sized by the content, and no embedded font.
    pub fn new(input_path: String) -> (args: Args)
        ensures
            args.input_path@ == input_path@,
            args.theme == Themes::BuiltIn(BuiltInThemes::Default),
            args.filetype == Filetype::SVG,
            args.output_filepath@ == "glimmr_out"@,
            args.depth == 3,
            !args.include_root,
            !args.bg_transparent,
            args.width is None,
            args.height is None,
            !args.bake_font,
    {
        Args {
            input_path,
            theme: Themes::BuiltIn(BuiltInThemes::Default),
            filetype: Filetype::SVG,
            output_filepath: "glimmr_out".to_owned(),
            depth: 3,
            include_root: false,
            bg_transparent: false,
            width: None,
            height: None,
            bake_font: false,
        }
    }

    /// The style record to draw with.
    pub open spec fn resolved_theme_spec(self) -> ThemeView {
        if self.bg_transparent {
            without_background(self.theme@.theme())
        } else {
            self.theme@.theme()
        }
    }

    /// The style record to draw with: that of the chosen theme, without its
    /// page background if a transparent background is asked for.
    pub fn resolved_theme(&self) -> (theme: Theme)
        ensures
            theme@ == self.resolved_theme_spec(),
    {
        let mut theme = self.theme.get_theme();
        if self.bg_transparent {
            theme.bg_color = None;
        }
        theme
    }
}

} // verus!
