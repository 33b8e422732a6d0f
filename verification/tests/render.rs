use glimmr::args::filetypes::Filetype;
use glimmr::args::themes::BuiltInThemes;
use glimmr::fs_parser::fs_structs::{FlatFsEntry, FsEntryType};
use glimmr::text::decimal_text;
use glimmr::visualize::svg_helper::fonts::{
    build_b64_font_embed, can_embed, font_face, measure_text_width, EmbeddedFont, FontError,
};
use glimmr::visualize::svg_helper::{compose_svg_from_filestruct, Document, Primitive};
use glimmr::visualize::{build_png, build_svg, output_path, visualize};

fn folder(name: &str, depth: u32) -> FlatFsEntry {
    FlatFsEntry { name: name.to_string(), entry_type: FsEntryType::Folder, depth }
}

fn file(name: &str, depth: u32) -> FlatFsEntry {
    FlatFsEntry { name: name.to_string(), entry_type: FsEntryType::File, depth }
}

#[test]
fn numbers_are_written_in_decimal() {
    assert_eq!(decimal_text(0), "0");
    assert_eq!(decimal_text(7), "7");
    assert_eq!(decimal_text(10), "10");
    assert_eq!(decimal_text(4096), "4096");
    assert_eq!(decimal_text(u64::MAX), "18446744073709551615");
}

#[test]
fn font_is_embedded_in_base64() {
    assert_eq!(
        build_b64_font_embed(b"hello", "Arial"),
        "<style>@font-face {\n            font-family: 'Arial';\n            src: url('data:font/ttf;base64,aGVsbG8=') format('truetype');\n        }</style>"
    );
}

#[test]
fn font_face_names_family_and_data() {
    assert_eq!(
        font_face("Fira Code", "QUJD"),
        "<style>@font-face {\n            font-family: 'Fira Code';\n            src: url('data:font/ttf;base64,QUJD') format('truetype');\n        }</style>"
    );
}

#[test]
fn short_font_data_can_be_embedded() {
    assert!(can_embed(&[]));
    assert!(can_embed(&[0u8; 1000]));
}

#[test]
fn embedded_fonts_are_found_by_their_exact_family() {
    assert_eq!(EmbeddedFont::from_family("Arial"), Some(EmbeddedFont::Arial));
    assert_eq!(EmbeddedFont::from_family("Fira Code"), Some(EmbeddedFont::FiraCode));
    assert_eq!(EmbeddedFont::from_family("Menlo"), Some(EmbeddedFont::Menlo));
    assert_eq!(EmbeddedFont::from_family("Ubuntu Mono"), Some(EmbeddedFont::UbuntuMono));
    assert_eq!(EmbeddedFont::from_family("Consolas"), Some(EmbeddedFont::Consolas));
    assert_eq!(EmbeddedFont::from_family("Courier New"), Some(EmbeddedFont::CourierNew));
    assert_eq!(EmbeddedFont::from_family("arial"), None);
    assert_eq!(EmbeddedFont::from_family("Helvetica"), None);
}

#[test]
fn embedded_fonts_have_their_files() {
    assert_eq!(EmbeddedFont::Arial.file_name(), "ARIAL.TTF");
    assert_eq!(EmbeddedFont::FiraCode.file_name(), "FiraCode-VariableFont_wght.ttf");
    assert_eq!(EmbeddedFont::Menlo.file_name(), "Menlo-Regular.ttf");
    assert_eq!(EmbeddedFont::UbuntuMono.file_name(), "UbuntuMono-Regular.ttf");
    assert_eq!(EmbeddedFont::Consolas.file_name(), "consolas.ttf");
    assert_eq!(EmbeddedFont::CourierNew.file_name(), "cour.ttf");
}

#[test]
fn font_errors_have_their_messages() {
    assert_eq!(
        FontError::NotFound("Papyrus".to_string()).to_string(),
        "Failed to load system font 'Papyrus'"
    );
    assert_eq!(
        FontError::Invalid("Papyrus".to_string()).to_string(),
        "Invalid font data for 'Papyrus'"
    );
}

#[test]
fn empty_document_is_a_bare_svg_element() {
    let doc = Document { width: 40, height: 30, primitives: Vec::new() };
    assert_eq!(doc.to_svg(), "<svg viewBox=\"0 0 40 30\" xmlns=\"http://www.w3.org/2000/svg\"/>");
}

#[test]
fn each_primitive_is_written_as_its_element() {
    let doc = Document {
        width: 100,
        height: 52,
        primitives: vec![
            Primitive::FontFace { css: "a > b".to_string() },
            Primitive::Background { color: "#FFFFFF".to_string(), corner_radius: 4 },
            Primitive::Line { x: 30, y: 8, elbow: false, color: "#555555".to_string() },
            Primitive::Line { x: 50, y: 30, elbow: true, color: "red".to_string() },
            Primitive::Label {
                kind: FsEntryType::File,
                text: "a&b.txt".to_string(),
                x: 40,
                y: 52,
                box_width: 56,
                corner_radius: 2,
                font: "Arial".to_string(),
                font_size: 14,
                text_color: "#333333".to_string(),
                box_color: "#FAFAFA".to_string(),
            },
        ],
    };
    let expected = [
        "<svg viewBox=\"0 0 100 52\" xmlns=\"http://www.w3.org/2000/svg\">",
        "<style>a &gt; b</style>",
        "<rect fill=\"#FFFFFF\" height=\"100%\" rx=\"4\" ry=\"4\" width=\"100%\"/>",
        "<path d=\"M30,8 v22\" fill=\"none\" stroke=\"#555555\" stroke-width=\"1\"/>",
        "<path d=\"M50,30 v11 h16\" fill=\"none\" stroke=\"red\" stroke-width=\"1\"/>",
        "<g class=\"file\" transform=\"translate(40,52)\">",
        "<rect class=\"label-bg\" fill=\"#FAFAFA\" height=\"20\" rx=\"2\" ry=\"2\" width=\"56\" y=\"-14\"/>",
        "<text class=\"label-text\" fill=\"#333333\" font-family=\"Arial\" font-size=\"14\" x=\"3\">a&amp;b.txt</text>",
        "</g>",
        "</svg>",
    ]
    .join("\n");
    assert_eq!(doc.to_svg(), expected);
}

#[test]
fn label_box_of_a_font_of_size_zero_starts_at_the_base_line() {
    let doc = Document {
        width: 1,
        height: 1,
        primitives: vec![Primitive::Label {
            kind: FsEntryType::Folder,
            text: "d".to_string(),
            x: 0,
            y: 0,
            box_width: 6,
            corner_radius: 0,
            font: "Menlo".to_string(),
            font_size: 0,
            text_color: "a".to_string(),
            box_color: "b".to_string(),
        }],
    };
    assert!(doc.to_svg().contains("<g class=\"folder\" transform=\"translate(0,0)\">"));
    assert!(doc.to_svg().contains(" y=\"0\"/>"));
}

#[test]
fn listing_is_rendered_from_end_to_end() {
    let entries = vec![folder("src", 0), file("main.rs", 1)];
    let theme = BuiltInThemes::Default.get_theme();
    let rendering = build_svg(entries, theme, &vec![21, 48], &[], false, None, None);
    assert_eq!(rendering.filetype, Filetype::SVG);
    assert_eq!(rendering.width, 48 + 20 + 40);
    assert_eq!(rendering.height, 2 * 22 + 30);
    let expected = [
        "<svg viewBox=\"0 0 108 74\" xmlns=\"http://www.w3.org/2000/svg\">",
        "<rect fill=\"#FFFFFF\" height=\"100%\" rx=\"0\" ry=\"0\" width=\"100%\"/>",
        "<path d=\"M30,30 v11 h16\" fill=\"none\" stroke=\"#555555\" stroke-width=\"1\"/>",
        "<g class=\"folder\" transform=\"translate(20,30)\">",
        "<rect class=\"label-bg\" fill=\"#F5F5F5\" height=\"20\" rx=\"2\" ry=\"2\" width=\"27\" y=\"-14\"/>",
        "<text class=\"label-text\" fill=\"#111111\" font-family=\"Arial\" font-size=\"14\" x=\"3\">src</text>",
        "</g>",
        "<g class=\"file\" transform=\"translate(40,52)\">",
        "<rect class=\"label-bg\" fill=\"#FAFAFA\" height=\"20\" rx=\"2\" ry=\"2\" width=\"54\" y=\"-14\"/>",
        "<text class=\"label-text\" fill=\"#333333\" font-family=\"Arial\" font-size=\"14\" x=\"3\">main.rs</text>",
        "</g>",
        "</svg>",
    ]
    .join("\n");
    assert_eq!(rendering.svg, expected);
}

#[test]
fn vector_output_embeds_the_font_on_demand_only() {
    let theme = BuiltInThemes::Default.get_theme();
    let plain = visualize(
        vec![file("a", 0)],
        theme.clone(),
        Filetype::SVG,
        &vec![8],
        b"font",
        false,
        None,
        None,
    );
    assert!(!plain.svg.contains("@font-face"));
    assert_eq!(plain.filetype, Filetype::SVG);
    let baked =
        visualize(vec![file("a", 0)], theme, Filetype::SVG, &vec![8], b"font", true, None, None);
    assert!(baked.svg.contains("font-family: 'Arial';"));
    assert!(baked.svg.contains("base64,Zm9udA=="));
    assert_eq!(baked.svg.matches("@font-face").count(), 1);
}

#[test]
fn raster_output_always_carries_the_font() {
    let theme = BuiltInThemes::Nord.get_theme();
    let rendering = visualize(
        vec![file("a", 0)],
        theme.clone(),
        Filetype::PNG,
        &vec![8],
        b"font",
        false,
        Some(300),
        Some(200),
    );
    assert_eq!(rendering.filetype, Filetype::PNG);
    assert_eq!(rendering.width, 300);
    assert_eq!(rendering.height, 200);
    assert!(rendering.svg.contains("base64,Zm9udA=="));
    assert!(rendering.svg.starts_with("<svg viewBox=\"0 0 300 200\""));
    let direct = build_png(vec![file("a", 0)], theme, &vec![8], b"font", Some(300), Some(200));
    assert_eq!(direct, rendering);
}

#[test]
fn composed_document_and_its_markup_agree() {
    let theme = BuiltInThemes::Dracula.get_theme();
    let entries = vec![folder("a", 0), file("b", 1)];
    let doc = compose_svg_from_filestruct(
        entries.clone(),
        theme.clone(),
        &vec![5, 6],
        &[],
        false,
        None,
        None,
    );
    let rendering = build_svg(entries, theme, &vec![5, 6], &[], false, None, None);
    assert_eq!(doc.to_svg(), rendering.svg);
    assert_eq!(doc.width, rendering.width);
    assert_eq!(doc.height, rendering.height);
}

#[test]
fn text_is_as_wide_as_its_larger_extent() {
    assert_eq!(measure_text_width(40, 38), 40);
    assert_eq!(measure_text_width(40, 43), 43);
    assert_eq!(measure_text_width(7, 7), 7);
    assert_eq!(measure_text_width(0, 0), 0);
}

#[test]
fn base64_pads_to_whole_groups() {
    assert!(build_b64_font_embed(b"", "F").contains("base64,')"));
    assert!(build_b64_font_embed(b"a", "F").contains("base64,YQ==')"));
    assert!(build_b64_font_embed(b"ab", "F").contains("base64,YWI=')"));
    assert!(build_b64_font_embed(b"abc", "F").contains("base64,YWJj')"));
    assert!(build_b64_font_embed(&[0xfb, 0xff], "F").contains("base64,+/8=')"));
}

#[test]
fn path_without_extension_gets_the_canonical_one() {
    assert_eq!(output_path("glimmr_out", false, Filetype::SVG), "glimmr_out.svg");
    assert_eq!(output_path("out/tree", false, Filetype::PNG), "out/tree.png");
}

#[test]
fn path_with_extension_stays_as_it_is() {
    assert_eq!(output_path("tree.svg", true, Filetype::SVG), "tree.svg");
    assert_eq!(output_path("tree.jpg", true, Filetype::PNG), "tree.jpg");
}
