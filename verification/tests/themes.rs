use glimmr::args::filetypes::Filetype;
use glimmr::args::themes::custom::{load_custom_theme, PartialTheme, ThemeError};
use glimmr::args::themes::{BuiltInThemes, HierarchyLineStyles, Theme, Themes};
use glimmr::args::Args;

fn all_builtin() -> Vec<BuiltInThemes> {
    vec![
        BuiltInThemes::Default,
        BuiltInThemes::DefaultDark,
        BuiltInThemes::Tokyonight,
        BuiltInThemes::Dracula,
        BuiltInThemes::SolarizedDark,
        BuiltInThemes::Monokai,
        BuiltInThemes::Nord,
    ]
}

#[test]
fn default_theme_has_its_table_values() {
    let theme = BuiltInThemes::Default.get_theme();
    let expected = Theme {
        font: "Arial".to_string(),
        folder_font_size: 14,
        file_font_size: 14,
        folder_text_color: "#111111".to_string(),
        file_text_color: "#333333".to_string(),
        folder_bg_color: "#F5F5F5".to_string(),
        file_bg_color: "#FAFAFA".to_string(),
        bg_color: Some("#FFFFFF".to_string()),
        bg_corner_rad: 0,
        folder_bg_corner_rad: 2,
        file_bg_corner_rad: 2,
        hierarchy_line: HierarchyLineStyles::Default,
        hierarchy_line_color: "#555555".to_string(),
    };
    assert_eq!(theme, expected);
}

#[test]
fn tokyonight_theme_has_its_table_values() {
    let theme = BuiltInThemes::Tokyonight.get_theme();
    assert_eq!(theme.font, "Fira Code");
    assert_eq!(theme.folder_text_color, "hsl(203, 74%, 82%)");
    assert_eq!(theme.file_text_color, "hsl(203, 74%, 70%)");
    assert_eq!(theme.folder_bg_color, "hsl(203, 50%, 18%)");
    assert_eq!(theme.file_bg_color, "hsl(203, 50%, 12%)");
    assert_eq!(theme.bg_color, Some("hsl(203, 50%, 8%)".to_string()));
    assert_eq!(theme.folder_bg_corner_rad, 3);
    assert_eq!(theme.file_bg_corner_rad, 3);
    assert_eq!(theme.hierarchy_line_color, "hsl(203, 50%, 45%)");
}

#[test]
fn each_builtin_theme_has_its_font() {
    let fonts: Vec<String> = all_builtin().iter().map(|t| t.get_theme().font).collect();
    assert_eq!(
        fonts,
        vec!["Arial", "Arial", "Fira Code", "Courier New", "Menlo", "Consolas", "Ubuntu Mono"]
    );
}

#[test]
fn builtin_choice_gives_the_table_entry() {
    for t in all_builtin() {
        assert_eq!(Themes::BuiltIn(t).get_theme(), t.get_theme());
    }
}

#[test]
fn custom_choice_gives_the_record_itself() {
    let mut theme = BuiltInThemes::Nord.get_theme();
    theme.font = "Menlo".to_string();
    assert_eq!(Themes::Custom(theme.clone()).get_theme(), theme);
}

#[test]
fn builtin_names_are_found_whatever_their_case() {
    assert_eq!(BuiltInThemes::from_str("default"), Some(BuiltInThemes::Default));
    assert_eq!(BuiltInThemes::from_str("DRACULA"), Some(BuiltInThemes::Dracula));
    assert_eq!(BuiltInThemes::from_str("Default_Dark"), Some(BuiltInThemes::DefaultDark));
    assert_eq!(BuiltInThemes::from_str("DefaultDark"), Some(BuiltInThemes::DefaultDark));
    assert_eq!(BuiltInThemes::from_str("solarized_dark"), Some(BuiltInThemes::SolarizedDark));
    assert_eq!(BuiltInThemes::from_str("SolarizedDark"), Some(BuiltInThemes::SolarizedDark));
    assert_eq!(BuiltInThemes::from_str("TokyoNight"), Some(BuiltInThemes::Tokyonight));
    assert_eq!(BuiltInThemes::from_str("monokai"), Some(BuiltInThemes::Monokai));
    assert_eq!(BuiltInThemes::from_str("Nord"), Some(BuiltInThemes::Nord));
}

#[test]
fn other_names_are_no_builtin_theme() {
    assert_eq!(BuiltInThemes::from_str(""), None);
    assert_eq!(BuiltInThemes::from_str("default dark"), None);
    assert_eq!(BuiltInThemes::from_str("{\"font\": \"Arial\"}"), None);
    assert_eq!(Themes::from_builtin_name("theme.json"), None);
}

#[test]
fn builtin_name_gives_the_builtin_choice() {
    assert_eq!(Themes::from_builtin_name("Nord"), Some(Themes::BuiltIn(BuiltInThemes::Nord)));
}

#[test]
fn name_of_each_builtin_theme_is_found_again() {
    for t in all_builtin() {
        assert_eq!(BuiltInThemes::from_str(&t.to_string()), Some(t));
    }
    assert_eq!(BuiltInThemes::SolarizedDark.to_string(), "solarized_dark");
}

#[test]
fn from_lowercase_takes_lower_case_only() {
    assert_eq!(BuiltInThemes::from_lowercase(&"nord".to_string()), Some(BuiltInThemes::Nord));
    assert_eq!(BuiltInThemes::from_lowercase(&"Nord".to_string()), None);
}

#[test]
fn overlay_of_nothing_gives_the_base() {
    for t in all_builtin() {
        let base = t.get_theme();
        assert_eq!(base.apply_overlay(&PartialTheme::empty()), base);
    }
}

#[test]
fn overlay_sets_the_fields_it_has() {
    let mut partial = PartialTheme::empty();
    partial.font = Some("Menlo".to_string());
    partial.file_font_size = Some(9);
    partial.bg_color = Some("red".to_string());
    partial.hierarchy_line_color = Some("blue".to_string());
    partial.folder_bg_corner_rad = Some(7);
    for t in all_builtin() {
        let base = t.get_theme();
        let theme = base.apply_overlay(&partial);
        assert_eq!(theme.font, "Menlo");
        assert_eq!(theme.file_font_size, 9);
        assert_eq!(theme.bg_color, Some("red".to_string()));
        assert_eq!(theme.hierarchy_line_color, "blue");
        assert_eq!(theme.folder_bg_corner_rad, 7);
        assert_eq!(theme.folder_font_size, base.folder_font_size);
        assert_eq!(theme.folder_text_color, base.folder_text_color);
        assert_eq!(theme.file_text_color, base.file_text_color);
        assert_eq!(theme.folder_bg_color, base.folder_bg_color);
        assert_eq!(theme.file_bg_color, base.file_bg_color);
        assert_eq!(theme.bg_corner_rad, base.bg_corner_rad);
        assert_eq!(theme.file_bg_corner_rad, base.file_bg_corner_rad);
        assert_eq!(theme.hierarchy_line, base.hierarchy_line);
    }
}

#[test]
fn overlay_leaves_the_base_as_it_was() {
    let base = BuiltInThemes::Dracula.get_theme();
    let copy = base.clone();
    let mut partial = PartialTheme::empty();
    partial.font = Some("Menlo".to_string());
    let _ = base.apply_overlay(&partial);
    assert_eq!(base, copy);
}

#[test]
fn overlay_keeps_the_background_of_the_base_if_it_has_none() {
    let mut base = BuiltInThemes::Default.get_theme();
    base.bg_color = None;
    assert_eq!(base.apply_overlay(&PartialTheme::empty()).bg_color, None);
}

#[test]
fn custom_theme_without_base_lies_over_the_default_theme() {
    let mut partial = PartialTheme::empty();
    partial.folder_font_size = Some(20);
    let mut expected = BuiltInThemes::Default.get_theme();
    expected.folder_font_size = 20;
    assert_eq!(load_custom_theme(&partial), Ok(expected));
}

#[test]
fn custom_theme_lies_over_the_base_it_names() {
    let mut partial = PartialTheme::empty();
    partial.base_theme = Some("Dracula".to_string());
    partial.font = Some("Arial".to_string());
    let mut expected = BuiltInThemes::Dracula.get_theme();
    expected.font = "Arial".to_string();
    assert_eq!(load_custom_theme(&partial), Ok(expected));
}

#[test]
fn custom_theme_with_unknown_base_is_refused() {
    let mut partial = PartialTheme::empty();
    partial.base_theme = Some("sunset".to_string());
    assert_eq!(
        load_custom_theme(&partial),
        Err(ThemeError::InvalidBaseTheme("sunset".to_string()))
    );
}

#[test]
fn theme_errors_have_their_messages() {
    assert_eq!(
        ThemeError::InvalidBaseTheme("sunset".to_string()).to_string(),
        "Invalid base_theme: sunset"
    );
    assert_eq!(
        ThemeError::Read("permission denied".to_string()).to_string(),
        "Failed to read file: permission denied"
    );
    assert_eq!(
        ThemeError::Parse("expected value at line 1 column 1".to_string()).to_string(),
        "Failed to parse JSON: expected value at line 1 column 1"
    );
    assert_eq!(
        ThemeError::Parse("eof".to_string()).invalid_input("{"),
        "Invalid theme input '{'. Error: Failed to parse JSON: eof"
    );
}

#[test]
fn filetype_is_read_whatever_the_case() {
    assert_eq!(Filetype::from_str("svg"), Ok(Filetype::SVG));
    assert_eq!(Filetype::from_str("SVG"), Ok(Filetype::SVG));
    assert_eq!(Filetype::from_str("png"), Ok(Filetype::PNG));
    assert_eq!(Filetype::from_str("Png"), Ok(Filetype::PNG));
}

#[test]
fn unknown_filetype_is_refused() {
    assert_eq!(Filetype::from_str("jpg"), Err("Invalid Filetype. Choose from 'svg', 'png'."));
    assert_eq!(Filetype::from_str(""), Err("Invalid Filetype. Choose from 'svg', 'png'."));
    assert_eq!(
        Filetype::from_lowercase(&"SVG".to_string()),
        Err("Invalid Filetype. Choose from 'svg', 'png'.")
    );
}

#[test]
fn filetype_has_its_name_and_extension() {
    assert_eq!(Filetype::SVG.to_string(), "svg");
    assert_eq!(Filetype::PNG.to_string(), "png");
    assert_eq!(Filetype::SVG.extension(), "svg");
    assert_eq!(Filetype::PNG.extension(), "png");
}

#[test]
fn raster_output_always_embeds_the_font() {
    assert!(Filetype::PNG.embeds_font(false));
    assert!(Filetype::PNG.embeds_font(true));
    assert!(Filetype::SVG.embeds_font(true));
    assert!(!Filetype::SVG.embeds_font(false));
}

#[test]
fn args_start_from_the_defaults() {
    let args = Args::new("some/dir".to_string());
    assert_eq!(args.input_path, "some/dir");
    assert_eq!(args.theme, Themes::BuiltIn(BuiltInThemes::Default));
    assert_eq!(args.filetype, Filetype::SVG);
    assert_eq!(args.output_filepath, "glimmr_out");
    assert_eq!(args.depth, 3);
    assert!(!args.include_root);
    assert!(!args.bg_transparent);
    assert_eq!(args.width, None);
    assert_eq!(args.height, None);
    assert!(!args.bake_font);
}

#[test]
fn transparent_background_drops_the_background_colour() {
    let mut args = Args::new(".".to_string());
    assert_eq!(args.resolved_theme(), BuiltInThemes::Default.get_theme());
    args.bg_transparent = true;
    let mut expected = BuiltInThemes::Default.get_theme();
    expected.bg_color = None;
    assert_eq!(args.resolved_theme(), expected);
}

#[test]
fn builtin_input_resolves_without_looking_at_the_override() {
    let unread = Err(ThemeError::Parse("expected value".to_string()));
    assert_eq!(Themes::from_str("Monokai", unread), Ok(Themes::BuiltIn(BuiltInThemes::Monokai)));
}

#[test]
fn override_input_resolves_to_the_custom_theme() {
    let mut partial = PartialTheme::empty();
    partial.base_theme = Some("nord".to_string());
    partial.file_text_color = Some("white".to_string());
    let mut expected = BuiltInThemes::Nord.get_theme();
    expected.file_text_color = "white".to_string();
    assert_eq!(
        Themes::from_str("{\"base_theme\": \"nord\"}", Ok(partial)),
        Ok(Themes::Custom(expected))
    );
}

#[test]
fn failed_override_gives_the_message_for_the_input() {
    assert_eq!(
        Themes::from_str("nope", Err(ThemeError::Parse("expected ident".to_string()))),
        Err("Invalid theme input 'nope'. Error: Failed to parse JSON: expected ident".to_string())
    );
    assert_eq!(
        Themes::from_str("t.json", Err(ThemeError::Read("denied".to_string()))),
        Err("Invalid theme input 't.json'. Error: Failed to read file: denied".to_string())
    );
    let mut partial = PartialTheme::empty();
    partial.base_theme = Some("sunset".to_string());
    assert_eq!(
        Themes::from_str("t.json", Ok(partial)),
        Err("Invalid theme input 't.json'. Error: Invalid base_theme: sunset".to_string())
    );
}
