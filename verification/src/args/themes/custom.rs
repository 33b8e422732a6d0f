//! Custom themes: a partial style record laid over a base theme.

use crate::args::themes::built_in::builtin_theme;
use crate::args::themes::{
    builtin_named, BuiltInThemes, Theme, ThemeView, Themes, ThemesView,
};
use crate::text::{lowercase, opt_text};
use vstd::prelude::*;

verus! {

/// A style record in which every field may be absent, with the name of the
/// theme that fills the gaps.
#[derive(Debug, PartialEq, Eq)]
pub struct PartialTheme {
    pub base_theme: Option<String>,
    pub font: Option<String>,
    pub folder_font_size: Option<u32>,
    pub file_font_size: Option<u32>,
    pub folder_text_color: Option<String>,
    pub file_text_color: Option<String>,
    pub folder_bg_color: Option<String>,
    pub file_bg_color: Option<String>,
    pub bg_color: Option<String>,
    pub bg_corner_rad: Option<u32>,
    pub folder_bg_corner_rad: Option<u32>,
    pub file_bg_corner_rad: Option<u32>,
    pub hierarchy_line_color: Option<String>,
}

/// The mathematical value of a `PartialTheme`.
pub struct PartialThemeView {
    pub base_theme: Option<Seq<char>>,
    pub font: Option<Seq<char>>,
    pub folder_font_size: Option<u32>,
    pub file_font_size: Option<u32>,
    pub folder_text_color: Option<Seq<char>>,
    pub file_text_color: Option<Seq<char>>,
    pub folder_bg_color: Option<Seq<char>>,
    pub file_bg_color: Option<Seq<char>>,
    pub bg_color: Option<Seq<char>>,
    pub bg_corner_rad: Option<u32>,
    pub folder_bg_corner_rad: Option<u32>,
    pub file_bg_corner_rad: Option<u32>,
    pub hierarchy_line_color: Option<Seq<char>>,
}

impl View for PartialTheme {
    type V = PartialThemeView;

    open spec fn view(&self) -> PartialThemeView {
        PartialThemeView {
            base_theme: opt_text(self.base_theme),
            font: opt_text(self.font),
            folder_font_size: self.folder_font_size,
            file_font_size: self.file_font_size,
            folder_text_color: opt_text(self.folder_text_color),
            file_text_color: opt_text(self.file_text_color),
            folder_bg_color: opt_text(self.folder_bg_color),
            file_bg_color: opt_text(self.file_bg_color),
            bg_color: opt_text(self.bg_color),
            bg_corner_rad: self.bg_corner_rad,
            folder_bg_corner_rad: self.folder_bg_corner_rad,
            file_bg_corner_rad: self.file_bg_corner_rad,
            hierarchy_line_color: opt_text(self.hierarchy_line_color),
        }
    }
}

impl PartialThemeView {
    /// The partial record that sets nothing.
    pub open spec fn empty() -> PartialThemeView {
        PartialThemeView {
            base_theme: None,
            font: None,
            folder_font_size: None,
            file_font_size: None,
            folder_text_color: None,
            file_text_color: None,
            folder_bg_color: None,
            file_bg_color: None,
            bg_color: None,
            bg_corner_rad: None,
            folder_bg_corner_rad: None,
            file_bg_corner_rad: None,
            hierarchy_line_color: None,
        }
    }
}

impl PartialTheme {
    /// The partial record that sets nothing.
    pub fn empty() -> (partial: PartialTheme)
        ensures
            partial@ == PartialThemeView::empty(),
    {
        PartialTheme {
            base_theme: None,
            font: None,
            folder_font_size: None,
            file_font_size: None,
            folder_text_color: None,
            file_text_color: None,
            folder_bg_color: None,
            file_bg_color: None,
            bg_color: None,
            bg_corner_rad: None,
            folder_bg_corner_rad: None,
            file_bg_corner_rad: None,
            hierarchy_line_color: None,
        }
    }
}

/// The value of the overlay if it has one, else that of the base.
pub open spec fn pick<T>(over: Option<T>, base: T) -> T {
    match over {
        Some(value) => value,
        None => base,
    }
}

/// The base theme with every field that the partial record sets replaced by
/// the value it sets. The line style, which a partial record cannot set, is
/// that of the base.
pub open spec fn overlay(base: ThemeView, partial: PartialThemeView) -> ThemeView {
    ThemeView {
        font: pick(partial.font, base.font),
        folder_font_size: pick(partial.folder_font_size, base.folder_font_size),
        file_font_size: pick(partial.file_font_size, base.file_font_size),
        folder_text_color: pick(partial.folder_text_color, base.folder_text_color),
        file_text_color: pick(partial.file_text_color, base.file_text_color),
        folder_bg_color: pick(partial.folder_bg_color, base.folder_bg_color),
        file_bg_color: pick(partial.file_bg_color, base.file_bg_color),
        bg_color: match partial.bg_color {
            Some(color) => Some(color),
            None => base.bg_color,
        },
        bg_corner_rad: pick(partial.bg_corner_rad, base.bg_corner_rad),
        folder_bg_corner_rad: pick(partial.folder_bg_corner_rad, base.folder_bg_corner_rad),
        file_bg_corner_rad: pick(partial.file_bg_corner_rad, base.file_bg_corner_rad),
        hierarchy_line: base.hierarchy_line,
        hierarchy_line_color: pick(partial.hierarchy_line_color, base.hierarchy_line_color),
    }
}

fn pick_text(over: &Option<String>, base: &String) -> (text: String)
    ensures
        text@ == pick(opt_text(*over), base@),
{
    match over {
        Some(value) => value.clone(),
        None => base.clone(),
    }
}

fn pick_number(over: Option<u32>, base: u32) -> (number: u32)
    ensures
        number == pick(over, base),
{
    match over {
        Some(value) => value,
        None => base,
    }
}

impl Theme {
    /// Lays a partial record over this theme: the result takes, field by
    /// field, the value of the overlay if it has one, else the value of this
    /// theme, which is left as it was.
    pub fn apply_overlay(&self, overlay: &PartialTheme) -> (theme: Theme)
        ensures
            theme@ == self::overlay(self@, overlay@),
    {
        Theme {
            font: pick_text(&overlay.font, &self.font),
            folder_font_size: pick_number(overlay.folder_font_size, self.folder_font_size),
            file_font_size: pick_number(overlay.file_font_size, self.file_font_size),
            folder_text_color: pick_text(&overlay.folder_text_color, &self.folder_text_color),
            file_text_color: pick_text(&overlay.file_text_color, &self.file_text_color),
            folder_bg_color: pick_text(&overlay.folder_bg_color, &self.folder_bg_color),
            file_bg_color: pick_text(&overlay.file_bg_color, &self.file_bg_color),
            bg_color: match &overlay.bg_color {
                Some(color) => Some(color.clone()),
                None => match &self.bg_color {
                    Some(color) => Some(color.clone()),
                    None => None,
                },
            },
            bg_corner_rad: pick_number(overlay.bg_corner_rad, self.bg_corner_rad),
            folder_bg_corner_rad: pick_number(
                overlay.folder_bg_corner_rad,
                self.folder_bg_corner_rad,
            ),
            file_bg_corner_rad: pick_number(overlay.file_bg_corner_rad, self.file_bg_corner_rad),
            hierarchy_line: self.hierarchy_line,
            hierarchy_line_color: pick_text(
                &overlay.hierarchy_line_color,
                &self.hierarchy_line_color,
            ),
        }
    }
}

/// Why a theme could not be resolved.
#[derive(Debug, PartialEq, Eq)]
pub enum ThemeError {
    /// The file that holds the override could not be read.
    Read(String),
    /// The override is no well-formed partial style record.
    Parse(String),
    /// The override names a base theme that is not in the built-in table.
    InvalidBaseTheme(String),
}

/// The mathematical value of a `ThemeError`.
pub enum ThemeErrorView {
    Read(Seq<char>),
    Parse(Seq<char>),
    InvalidBaseTheme(Seq<char>),
}

impl View for ThemeError {
    type V = ThemeErrorView;

    open spec fn view(&self) -> ThemeErrorView {
        match *self {
            ThemeError::Read(detail) => ThemeErrorView::Read(detail@),
            ThemeError::Parse(detail) => ThemeErrorView::Parse(detail@),
            ThemeError::InvalidBaseTheme(name) => ThemeErrorView::InvalidBaseTheme(name@),
        }
    }
}

impl ThemeErrorView {
    /// The message for this error.
    pub open spec fn message(self) -> Seq<char> {
        match self {
            ThemeErrorView::Read(detail) => "Failed to read file: "@ + detail,
            ThemeErrorView::Parse(detail) => "Failed to parse JSON: "@ + detail,
            ThemeErrorView::InvalidBaseTheme(name) => "Invalid base_theme: "@ + name,
        }
    }

    /// The message for a theme input that neither names a built-in theme
    /// nor yields a custom one.
    pub open spec fn invalid_input(self, input: Seq<char>) -> Seq<char> {
        "Invalid theme input '"@ + input + "'. Error: "@ + self.message()
    }
}

impl ThemeError {
    /// The message for this error, as text.
    pub fn to_string(&self) -> (message: String)
        ensures
            message@ == self@.message(),
    {
        match self {
            ThemeError::Read(detail) => "Failed to read file: ".to_owned().concat(
                detail.as_str(),
            ),
            ThemeError::Parse(detail) => "Failed to parse JSON: ".to_owned().concat(
                detail.as_str(),
            ),
            ThemeError::InvalidBaseTheme(name) => "Invalid base_theme: ".to_owned().concat(
                name.as_str(),
            ),
        }
    }

    /// The message for a theme input that neither names a built-in theme
    /// nor yields a custom one, as text.
    pub fn invalid_input(&self, input: &str) -> (message: String)
        ensures
            message@ == self@.invalid_input(input@),
    {
        let cause = self.to_string();
        "Invalid theme input '".to_owned().concat(input).concat("'. Error: ").concat(
            cause.as_str(),
        )
    }
}

/// The theme that a partial record resolves to, given the lower-case form
/// of the base theme name it declares, if it declares one: the overlay on
/// the named base, or on the default theme when none is named.
pub open spec fn custom_theme(partial: PartialThemeView, lower_base: Option<Seq<char>>) -> Option<
    ThemeView,
> {
    match lower_base {
        None => Some(overlay(builtin_theme(BuiltInThemes::Default), partial)),
        Some(lower) => match builtin_named(lower) {
            Some(base) => Some(overlay(builtin_theme(base), partial)),
            None => None,
        },
    }
}

/// The lower-case form of the base theme name that a partial record
/// declares.
pub open spec fn lower_base_name(partial: PartialThemeView) -> Option<Seq<char>> {
    match partial.base_theme {
        Some(name) => Some(lowercase(name)),
        None => None,
    }
}

/// What resolving a parsed override yields: the overlay, or the error that
/// names the unknown base theme.
pub open spec fn custom_theme_result(partial: PartialThemeView) -> Result<ThemeView, ThemeErrorView> {
    match custom_theme(partial, lower_base_name(partial)) {
        Some(theme) => Ok(theme),
        None => Err(ThemeErrorView::InvalidBaseTheme(partial.base_theme->Some_0)),
    }
}

/// Whether `res` is what `expected` says, value for value.
pub open spec fn theme_result_is(
    res: Result<Theme, ThemeError>,
    expected: Result<ThemeView, ThemeErrorView>,
) -> bool {
    match expected {
        Ok(theme) => res is Ok && res->Ok_0@ == theme,
        Err(error) => res is Err && res->Err_0@ == error,
    }
}

/// Resolves a parsed override into a complete theme.
///
/// The base is the built-in theme that the override names, whatever the case
/// of its letters, or the default theme when it names none. A name that is
/// not in the built-in table gives `InvalidBaseTheme` with that name.
pub fn load_custom_theme(partial: &PartialTheme) -> (res: Result<Theme, ThemeError>)
    ensures
        theme_result_is(res, custom_theme_result(partial@)),
{
    let base_theme = match &partial.base_theme {
        Some(base_name) => match BuiltInThemes::from_str(base_name.as_str()) {
            Some(theme_enum) => theme_enum.get_theme(),
            None => {
                return Err(ThemeError::InvalidBaseTheme(base_name.clone()));
            },
        },
        None => BuiltInThemes::Default.get_theme(),
    };
    Ok(base_theme.apply_overlay(partial))
}

/// What a theme input resolves to, given what reading it as an override
/// yields: the built-in choice if the input names a built-in theme, else
/// the custom theme of the override, else the message that says why there
/// is none.
pub open spec fn resolved(
    lower_input: Seq<char>,
    input: Seq<char>,
    custom: Result<PartialThemeView, ThemeErrorView>,
) -> Result<ThemesView, Seq<char>> {
    match builtin_named(lower_input) {
        Some(t) => Ok(ThemesView::BuiltIn(t)),
        None => match custom {
            Ok(partial) => match custom_theme_result(partial) {
                Ok(theme) => Ok(ThemesView::Custom(theme)),
                Err(error) => Err(error.invalid_input(input)),
            },
            Err(error) => Err(error.invalid_input(input)),
        },
    }
}

/// The views of what reading an input as an override yields.
pub open spec fn override_view(custom: Result<PartialTheme, ThemeError>) -> Result<
    PartialThemeView,
    ThemeErrorView,
> {
    match custom {
        Ok(partial) => Ok(partial@),
        Err(error) => Err(error@),
    }
}

impl Themes {
    /// Resolves a theme input.
    ///
    /// An input that names a built-in theme, whatever the case of its
    /// letters, gives that theme. Any other input is an override: `custom`
    /// holds what reading and parsing it gave. A parsed override gives the
    /// custom theme that it resolves to. A failure to read or parse it, or
    /// an unknown base theme, gives the message for the input.
    pub fn from_str(s: &str, custom: Result<PartialTheme, ThemeError>) -> (res: Result<
        Themes,
        String,
    >)
        ensures
            match resolved(lowercase(s@), s@, override_view(custom)) {
                Ok(choice) => res is Ok && res->Ok_0@ == choice,
                Err(message) => res is Err && res->Err_0@ == message,
            },
    {
        match BuiltInThemes::from_str(s) {
            Some(builtin) => Ok(Themes::BuiltIn(builtin)),
            None => match custom {
                Ok(partial) => match load_custom_theme(&partial) {
                    Ok(theme) => Ok(Themes::Custom(theme)),
                    Err(e) => Err(e.invalid_input(s)),
                },
                Err(e) => Err(e.invalid_input(s)),
            },
        }
    }
}

/// Overlaying a partial record that sets nothing gives the base theme back.
pub proof fn lemma_overlay_empty(base: ThemeView)
    ensures
        overlay(base, PartialThemeView::empty()) == base,
{
}

/// A field that the partial record sets has that value in the overlay,
/// whatever the base.
pub proof fn lemma_overlay_set_fields(base: ThemeView, partial: PartialThemeView)
    ensures
        partial.font matches Some(v) ==> overlay(base, partial).font == v,
        partial.folder_font_size matches Some(v) ==> overlay(base, partial).folder_font_size == v,
        partial.file_font_size matches Some(v) ==> overlay(base, partial).file_font_size == v,
        partial.folder_text_color matches Some(v) ==> overlay(base, partial).folder_text_color
            == v,
        partial.file_text_color matches Some(v) ==> overlay(base, partial).file_text_color == v,
        partial.folder_bg_color matches Some(v) ==> overlay(base, partial).folder_bg_color == v,
        partial.file_bg_color matches Some(v) ==> overlay(base, partial).file_bg_color == v,
        partial.bg_color matches Some(v) ==> overlay(base, partial).bg_color == Some(v),
        partial.bg_corner_rad matches Some(v) ==> overlay(base, partial).bg_corner_rad == v,
        partial.folder_bg_corner_rad matches Some(v) ==> overlay(
            base,
            partial,
        ).folder_bg_corner_rad == v,
        partial.file_bg_corner_rad matches Some(v) ==> overlay(base, partial).file_bg_corner_rad
            == v,
        partial.hierarchy_line_color matches Some(v) ==> overlay(
            base,
            partial,
        ).hierarchy_line_color == v,
{
}

/// A field that the partial record leaves out has the value of the base in
/// the overlay.
pub proof fn lemma_overlay_unset_fields(base: ThemeView, partial: PartialThemeView)
    ensures
        partial.font is None ==> overlay(base, partial).font == base.font,
        partial.folder_font_size is None ==> overlay(base, partial).folder_font_size
            == base.folder_font_size,
        partial.file_font_size is None ==> overlay(base, partial).file_font_size
            == base.file_font_size,
        partial.folder_text_color is None ==> overlay(base, partial).folder_text_color
            == base.folder_text_color,
        partial.file_text_color is None ==> overlay(base, partial).file_text_color
            == base.file_text_color,
        partial.folder_bg_color is None ==> overlay(base, partial).folder_bg_color
            == base.folder_bg_color,
        partial.file_bg_color is None ==> overlay(base, partial).file_bg_color
            == base.file_bg_color,
        partial.bg_color is None ==> overlay(base, partial).bg_color == base.bg_color,
        partial.bg_corner_rad is None ==> overlay(base, partial).bg_corner_rad
            == base.bg_corner_rad,
        partial.folder_bg_corner_rad is None ==> overlay(base, partial).folder_bg_corner_rad
            == base.folder_bg_corner_rad,
        partial.file_bg_corner_rad is None ==> overlay(base, partial).file_bg_corner_rad
            == base.file_bg_corner_rad,
        partial.hierarchy_line_color is None ==> overlay(base, partial).hierarchy_line_color
            == base.hierarchy_line_color,
        overlay(base, partial).hierarchy_line == base.hierarchy_line,
{
}

} // verus!
