//! Themes: the complete style record, the built-in table and the choice
//! between a built-in theme and a custom one.

use crate::text::{lowercase, text_is, to_lowercase};
use vstd::prelude::*;

pub mod built_in;
pub mod custom;

verus! {

/// How hierarchy lines are drawn.
#[derive(Debug, Clone, Copy, PartialEq, Eq, Structural)]
pub enum HierarchyLineStyles {
    Default,
}

/// The built-in themes.
#[derive(Debug, Clone, Copy, PartialEq, Eq, Hash, Structural)]
pub enum BuiltInThemes {
    Default,
    DefaultDark,
    Tokyonight,
    Dracula,
    SolarizedDark,
    Monokai,
    Nord,
}

/// A complete style record.
#[derive(Debug, PartialEq, Eq)]
pub struct Theme {
    pub font: String,
    pub folder_font_size: u32,
    pub file_font_size: u32,
    pub folder_text_color: String,
    pub file_text_color: String,
    pub folder_bg_color: String,
    pub file_bg_color: String,
    pub bg_color: Option<String>,
    pub bg_corner_rad: u32,
    pub folder_bg_corner_rad: u32,
    pub file_bg_corner_rad: u32,
    pub hierarchy_line: HierarchyLineStyles,
    pub hierarchy_line_color: String,
}

/// The mathematical value of a `Theme`.
pub struct ThemeView {
    pub font: Seq<char>,
    pub folder_font_size: u32,
    pub file_font_size: u32,
    pub folder_text_color: Seq<char>,
    pub file_text_color: Seq<char>,
    pub folder_bg_color: Seq<char>,
    pub file_bg_color: Seq<char>,
    pub bg_color: Option<Seq<char>>,
    pub bg_corner_rad: u32,
    pub folder_bg_corner_rad: u32,
    pub file_bg_corner_rad: u32,
    pub hierarchy_line: HierarchyLineStyles,
    pub hierarchy_line_color: Seq<char>,
}

impl View for Theme {
    type V = ThemeView;

    open spec fn view(&self) -> ThemeView {
        ThemeView {
            font: self.font@,
            folder_font_size: self.folder_font_size,
            file_font_size: self.file_font_size,
            folder_text_color: self.folder_text_color@,
            file_text_color: self.file_text_color@,
            folder_bg_color: self.folder_bg_color@,
            file_bg_color: self.file_bg_color@,
            bg_color: crate::text::opt_text(self.bg_color),
            bg_corner_rad: self.bg_corner_rad,
            folder_bg_corner_rad: self.folder_bg_corner_rad,
            file_bg_corner_rad: self.file_bg_corner_rad,
            hierarchy_line: self.hierarchy_line,
            hierarchy_line_color: self.hierarchy_line_color@,
        }
    }
}

impl Clone for Theme {
    fn clone(&self) -> (res: Self)
        ensures
            res@ == self@,
    {
        Theme {
            font: self.font.clone(),
            folder_font_size: self.folder_font_size,
            file_font_size: self.file_font_size,
            folder_text_color: self.folder_text_color.clone(),
            file_text_color: self.file_text_color.clone(),
            folder_bg_color: self.folder_bg_color.clone(),
            file_bg_color: self.file_bg_color.clone(),
            bg_color: match &self.bg_color {
                Some(color) => Some(color.clone()),
                None => None,
            },
            bg_corner_rad: self.bg_corner_rad,
            folder_bg_corner_rad: self.folder_bg_corner_rad,
            file_bg_corner_rad: self.file_bg_corner_rad,
            hierarchy_line: self.hierarchy_line,
            hierarchy_line_color: self.hierarchy_line_color.clone(),
        }
    }
}

/// A choice of theme: one of the built-in table, or a custom record.
#[derive(Debug, PartialEq, Eq)]
pub enum Themes {
    BuiltIn(BuiltInThemes),
    Custom(Theme),
}

/// The mathematical value of a `Themes`: which choice was made, and for a
/// custom theme the value of its record.
pub enum ThemesView {
    BuiltIn(BuiltInThemes),
    Custom(ThemeView),
}

impl View for Themes {
    type V = ThemesView;

    open spec fn view(&self) -> ThemesView {
        match *self {
            Themes::BuiltIn(t) => ThemesView::BuiltIn(t),
            Themes::Custom(custom) => ThemesView::Custom(custom@),
        }
    }
}

impl ThemesView {
    /// The style record that this choice stands for: the entry of the
    /// built-in table, or the custom record itself.
    pub open spec fn theme(self) -> ThemeView {
        match self {
            ThemesView::BuiltIn(t) => built_in::builtin_theme(t),
            ThemesView::Custom(custom) => custom,
        }
    }
}

impl Clone for Themes {
    fn clone(&self) -> (res: Self)
        ensures
            res@ == self@,
    {
        match self {
            Themes::BuiltIn(t) => Themes::BuiltIn(*t),
            Themes::Custom(custom) => Themes::Custom(custom.clone()),
        }
    }
}

/// The built-in theme that a lower-case name stands for. The themes whose
/// name has two words answer to the name written in one word and to the
/// name written with an underscore between the words.
pub open spec fn builtin_named(lower: Seq<char>) -> Option<BuiltInThemes> {
    if lower == "default"@ {
        Some(BuiltInThemes::Default)
    } else if lower == "default_dark"@ || lower == "defaultdark"@ {
        Some(BuiltInThemes::DefaultDark)
    } else if lower == "tokyonight"@ {
        Some(BuiltInThemes::Tokyonight)
    } else if lower == "dracula"@ {
        Some(BuiltInThemes::Dracula)
    } else if lower == "solarized_dark"@ || lower == "solarizeddark"@ {
        Some(BuiltInThemes::SolarizedDark)
    } else if lower == "monokai"@ {
        Some(BuiltInThemes::Monokai)
    } else if lower == "nord"@ {
        Some(BuiltInThemes::Nord)
    } else {
        None
    }
}

impl BuiltInThemes {
    /// The style record of this built-in theme.
    pub fn get_theme(&self) -> (theme: Theme)
        ensures
            theme@ == built_in::builtin_theme(*self),
    {
        built_in::theme_of(*self)
    }

    /// The name of the theme: lower case, words joined by an underscore.
    pub open spec fn name_spec(self) -> Seq<char> {
        match self {
            BuiltInThemes::Default => "default"@,
            BuiltInThemes::DefaultDark => "default_dark"@,
            BuiltInThemes::Tokyonight => "tokyonight"@,
            BuiltInThemes::Dracula => "dracula"@,
            BuiltInThemes::SolarizedDark => "solarized_dark"@,
            BuiltInThemes::Monokai => "monokai"@,
            BuiltInThemes::Nord => "nord"@,
        }
    }

    /// The name of the theme, as text.
    pub fn to_string(&self) -> (name: String)
        ensures
            name@ == self.name_spec(),
    {
        match self {
            BuiltInThemes::Default => "default".to_owned(),
            BuiltInThemes::DefaultDark => "default_dark".to_owned(),
            BuiltInThemes::Tokyonight => "tokyonight".to_owned(),
            BuiltInThemes::Dracula => "dracula".to_owned(),
            BuiltInThemes::SolarizedDark => "solarized_dark".to_owned(),
            BuiltInThemes::Monokai => "monokai".to_owned(),
            BuiltInThemes::Nord => "nord".to_owned(),
        }
    }

    /// Looks a built-in theme up by a name that is already in lower case.
    pub fn from_lowercase(lower: &String) -> (found: Option<BuiltInThemes>)
        ensures
            found == builtin_named(lower@),
    {
        if text_is(lower, "default") {
            Some(BuiltInThemes::Default)
        } else if text_is(lower, "default_dark") || text_is(lower, "defaultdark") {
            Some(BuiltInThemes::DefaultDark)
        } else if text_is(lower, "tokyonight") {
            Some(BuiltInThemes::Tokyonight)
        } else if text_is(lower, "dracula") {
            Some(BuiltInThemes::Dracula)
        } else if text_is(lower, "solarized_dark") || text_is(lower, "solarizeddark") {
            Some(BuiltInThemes::SolarizedDark)
        } else if text_is(lower, "monokai") {
            Some(BuiltInThemes::Monokai)
        } else if text_is(lower, "nord") {
            Some(BuiltInThemes::Nord)
        } else {
            None
        }
    }

    /// Looks a built-in theme up by name, whatever the case of its letters.
    pub fn from_str(name: &str) -> (found: Option<BuiltInThemes>)
        ensures
            found == builtin_named(lowercase(name@)),
    {
        let lower = to_lowercase(name);
        BuiltInThemes::from_lowercase(&lower)
    }
}

impl Themes {
    /// The style record of the chosen theme: the entry of the built-in
    /// table, or the custom record itself.
    pub fn get_theme(&self) -> (theme: Theme)
        ensures
            theme@ == self@.theme(),
    {
        match self {
            Themes::BuiltIn(t) => t.get_theme(),
            Themes::Custom(custom) => custom.clone(),
        }
    }

    /// The built-in choice that a name stands for, whatever the case of its
    /// letters; `None` for a name that is no built-in theme, which is then
    /// to be read as a custom override.
    pub fn from_builtin_name(name: &str) -> (found: Option<Themes>)
        ensures
            match builtin_named(lowercase(name@)) {
                Some(t) => found == Some(Themes::BuiltIn(t)),
                None => found is None,
            },
    {
        match BuiltInThemes::from_str(name) {
            Some(t) => Some(Themes::BuiltIn(t)),
            None => None,
        }
    }
}

} // verus!
