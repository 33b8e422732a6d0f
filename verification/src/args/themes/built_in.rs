//! The table of built-in themes.

use crate::args::themes::{BuiltInThemes, HierarchyLineStyles, Theme, ThemeView};
use vstd::prelude::*;

verus! {

/// A style record in the shape that all built-in themes share: no rounding
/// of the page background, one corner radius for folder and file boxes, and
/// the default line style.
pub open spec fn palette_view(
    font: Seq<char>,
    font_size: u32,
    folder_text_color: Seq<char>,
    file_text_color: Seq<char>,
    folder_bg_color: Seq<char>,
    file_bg_color: Seq<char>,
    bg_color: Seq<char>,
    corner_rad: u32,
    hierarchy_line_color: Seq<char>,
) -> ThemeView {
    ThemeView {
        font,
        folder_font_size: font_size,
        file_font_size: font_size,
        folder_text_color,
        file_text_color,
        folder_bg_color,
        file_bg_color,
        bg_color: Some(bg_color),
        bg_corner_rad: 0,
        folder_bg_corner_rad: corner_rad,
        file_bg_corner_rad: corner_rad,
        hierarchy_line: HierarchyLineStyles::Default,
        hierarchy_line_color,
    }
}

fn palette(
    font: &str,
    font_size: u32,
    folder_text_color: &str,
    file_text_color: &str,
    folder_bg_color: &str,
    file_bg_color: &str,
    bg_color: &str,
    corner_rad: u32,
    hierarchy_line_color: &str,
) -> (theme: Theme)
    ensures
        theme@ == palette_view(
            font@,
            font_size,
            folder_text_color@,
            file_text_color@,
            folder_bg_color@,
            file_bg_color@,
            bg_color@,
            corner_rad,
            hierarchy_line_color@,
        ),
{
    Theme {
        font: font.to_owned(),
        folder_font_size: font_size,
        file_font_size: font_size,
        folder_text_color: folder_text_color.to_owned(),
        file_text_color: file_text_color.to_owned(),
        folder_bg_color: folder_bg_color.to_owned(),
        file_bg_color: file_bg_color.to_owned(),
        bg_color: Some(bg_color.to_owned()),
        bg_corner_rad: 0,
        folder_bg_corner_rad: corner_rad,
        file_bg_corner_rad: corner_rad,
        hierarchy_line: HierarchyLineStyles::Default,
        hierarchy_line_color: hierarchy_line_color.to_owned(),
    }
}

/// The style record of each built-in theme.
pub open spec fn builtin_theme(t: BuiltInThemes) -> ThemeView {
    match t {
        BuiltInThemes::Default => palette_view(
            "Arial"@,
            14,
            "#111111"@,
            "#333333"@,
            "#F5F5F5"@,
            "#FAFAFA"@,
            "#FFFFFF"@,
            2,
            "#555555"@,
        ),
        BuiltInThemes::DefaultDark => palette_view(
            "Arial"@,
            14,
            "#FFFFFF"@,
            "#CCCCCC"@,
            "#333333"@,
            "#222222"@,
            "#111111"@,
            2,
            "#DDDDDD"@,
        ),
        BuiltInThemes::Tokyonight => palette_view(
            "Fira Code"@,
            14,
            "hsl(203, 74%, 82%)"@,
            "hsl(203, 74%, 70%)"@,
            "hsl(203, 50%, 18%)"@,
            "hsl(203, 50%, 12%)"@,
            "hsl(203, 50%, 8%)"@,
            3,
            "hsl(203, 50%, 45%)"@,
        ),
        BuiltInThemes::Dracula => palette_view(
            "Courier New"@,
            14,
            "hsl(288, 50%, 85%)"@,
            "hsl(288, 50%, 70%)"@,
            "hsl(282, 50%, 15%)"@,
            "hsl(282, 50%, 10%)"@,
            "hsl(282, 50%, 5%)"@,
            2,
            "hsl(288, 50%, 60%)"@,
        ),
        BuiltInThemes::SolarizedDark => palette_view(
            "Menlo"@,
            14,
            "hsl(45, 60%, 80%)"@,
            "hsl(45, 60%, 70%)"@,
            "hsl(200, 30%, 15%)"@,
            "hsl(200, 30%, 10%)"@,
            "hsl(200, 30%, 5%)"@,
            2,
            "hsl(45, 60%, 55%)"@,
        ),
        BuiltInThemes::Monokai => palette_view(
            "Consolas"@,
            14,
            "hsl(48, 100%, 85%)"@,
            "hsl(48, 100%, 70%)"@,
            "hsl(290, 60%, 15%)"@,
            "hsl(290, 60%, 10%)"@,
            "hsl(290, 60%, 5%)"@,
            2,
            "hsl(48, 100%, 60%)"@,
        ),
        BuiltInThemes::Nord => palette_view(
            "Ubuntu Mono"@,
            14,
            "hsl(210, 30%, 90%)"@,
            "hsl(210, 30%, 75%)"@,
            "hsl(210, 25%, 20%)"@,
            "hsl(210, 25%, 15%)"@,
            "hsl(210, 25%, 10%)"@,
            2,
            "hsl(210, 30%, 55%)"@,
        ),
    }
}

/// Builds the style record of a built-in theme.
pub(crate) fn theme_of(t: BuiltInThemes) -> (theme: Theme)
    ensures
        theme@ == builtin_theme(t),
{
    match t {
        BuiltInThemes::Default => palette(
            "Arial",
            14,
            "#111111",
            "#333333",
            "#F5F5F5",
            "#FAFAFA",
            "#FFFFFF",
            2,
            "#555555",
        ),
        BuiltInThemes::DefaultDark => palette(
            "Arial",
            14,
            "#FFFFFF",
            "#CCCCCC",
            "#333333",
            "#222222",
            "#111111",
            2,
            "#DDDDDD",
        ),
        BuiltInThemes::Tokyonight => palette(
            "Fira Code",
            14,
            "hsl(203, 74%, 82%)",
            "hsl(203, 74%, 70%)",
            "hsl(203, 50%, 18%)",
            "hsl(203, 50%, 12%)",
            "hsl(203, 50%, 8%)",
            3,
            "hsl(203, 50%, 45%)",
        ),
        BuiltInThemes::Dracula => palette(
            "Courier New",
            14,
            "hsl(288, 50%, 85%)",
            "hsl(288, 50%, 70%)",
            "hsl(282, 50%, 15%)",
            "hsl(282, 50%, 10%)",
            "hsl(282, 50%, 5%)",
            2,
            "hsl(288, 50%, 60%)",
        ),
        BuiltInThemes::SolarizedDark => palette(
            "Menlo",
            14,
            "hsl(45, 60%, 80%)",
            "hsl(45, 60%, 70%)",
            "hsl(200, 30%, 15%)",
            "hsl(200, 30%, 10%)",
            "hsl(200, 30%, 5%)",
            2,
            "hsl(45, 60%, 55%)",
        ),
        BuiltInThemes::Monokai => palette(
            "Consolas",
            14,
            "hsl(48, 100%, 85%)",
            "hsl(48, 100%, 70%)",
            "hsl(290, 60%, 15%)",
            "hsl(290, 60%, 10%)",
            "hsl(290, 60%, 5%)",
            2,
            "hsl(48, 100%, 60%)",
        ),
        BuiltInThemes::Nord => palette(
            "Ubuntu Mono",
            14,
            "hsl(210, 30%, 90%)",
            "hsl(210, 30%, 75%)",
            "hsl(210, 25%, 20%)",
            "hsl(210, 25%, 15%)",
            "hsl(210, 25%, 10%)",
            2,
            "hsl(210, 30%, 55%)",
        ),
    }
}

} // verus!
