use glimmr::args::themes::BuiltInThemes;
use glimmr::fs_parser::fs_structs::{FlatFsEntry, FsEntryType};
use glimmr::visualize::svg_helper::layout::{
    layout, Connector, LayoutRow, BG_X_PADDING, DEPTH_OFFSET, ELBOW_DROP, ELBOW_TAIL, ROW_HEIGHT,
    ROW_PADDING, ROW_PITCH, TOP_PADDING,
};
use glimmr::visualize::svg_helper::{
    compose_hierarchy_line, compose_svg_from_filestruct, Primitive, ITEM_BG_X_PADDING,
};

fn folder(name: &str, depth: u32) -> FlatFsEntry {
    FlatFsEntry { name: name.to_string(), entry_type: FsEntryType::Folder, depth }
}

fn file(name: &str, depth: u32) -> FlatFsEntry {
    FlatFsEntry { name: name.to_string(), entry_type: FsEntryType::File, depth }
}

fn canvas_width(entries: &[FlatFsEntry], widths: &[u32]) -> u64 {
    let theme = BuiltInThemes::Default.get_theme();
    compose_svg_from_filestruct(entries.to_vec(), theme, &widths.to_vec(), &[], false, None, None)
        .width
}

#[test]
fn metrics_have_their_values() {
    assert_eq!(ROW_HEIGHT, 20);
    assert_eq!(ROW_PADDING, 2);
    assert_eq!(ROW_PITCH, 22);
    assert_eq!(DEPTH_OFFSET, 20);
    assert_eq!(TOP_PADDING, 30);
    assert_eq!(BG_X_PADDING, 20);
    assert_eq!(ELBOW_DROP, 11);
    assert_eq!(ELBOW_TAIL, 16);
    assert_eq!(ITEM_BG_X_PADDING, 3);
}

#[test]
fn rows_stand_one_pitch_apart_and_one_offset_per_level() {
    let entries = vec![folder("root", 0), folder("src", 1), file("main", 2)];
    let widths = vec![40, 30, 50];
    let placed = layout(&entries, &widths);
    let pitch = ROW_PITCH as u64;
    let margin = BG_X_PADDING as u64;
    let offset = DEPTH_OFFSET as u64;
    let top = TOP_PADDING as u64;
    assert_eq!(placed.rows.len(), 3);
    assert_eq!(placed.rows[0].y - top, 0);
    assert_eq!(placed.rows[1].y - top, pitch);
    assert_eq!(placed.rows[2].y - top, 2 * pitch);
    assert_eq!(placed.rows[0].x, margin);
    assert_eq!(placed.rows[1].x, margin + offset);
    assert_eq!(placed.rows[2].x, margin + 2 * offset);
    assert_eq!(
        placed.rows,
        vec![
            LayoutRow { index: 0, x: 20, y: 30, width: 40 },
            LayoutRow { index: 1, x: 40, y: 52, width: 30 },
            LayoutRow { index: 2, x: 60, y: 74, width: 50 },
        ]
    );
    let theme = BuiltInThemes::Default.get_theme();
    let doc = compose_svg_from_filestruct(entries, theme, &widths, &[], false, None, None);
    assert_eq!(doc.height, 3 * pitch + top);
    assert_eq!(doc.height, 96);
}

#[test]
fn last_child_gets_the_elbow() {
    let entries = vec![folder("A", 0), file("B", 1), file("C", 1)];
    let placed = layout(&entries, &vec![10, 10, 10]);
    assert_eq!(
        placed.connectors,
        vec![
            Connector { row: 1, level: 0, x: 30, y: 30, elbow: false },
            Connector { row: 2, level: 0, x: 30, y: 52, elbow: true },
        ]
    );
}

#[test]
fn each_row_draws_one_connector_per_ancestor_level() {
    let entries = vec![
        folder("a", 0),
        folder("b", 1),
        file("c", 2),
        file("d", 2),
        file("e", 1),
        file("f", 0),
    ];
    let placed = layout(&entries, &vec![1, 1, 1, 1, 1, 1]);
    let pairs: Vec<(usize, u32, bool)> =
        placed.connectors.iter().map(|c| (c.row, c.level, c.elbow)).collect();
    assert_eq!(
        pairs,
        vec![
            (1, 0, false),
            (2, 0, false),
            (2, 1, false),
            (3, 0, false),
            (3, 1, true),
            (4, 0, true),
        ]
    );
    for c in &placed.connectors {
        assert_eq!(c.x, c.level as u64 * 20 + 10 + 20);
        assert_eq!(c.y, c.row as u64 * 22 + 30 - 22);
    }
}

#[test]
fn last_row_ends_every_level() {
    let entries = vec![folder("a", 0), folder("b", 1), file("c", 2)];
    let placed = layout(&entries, &vec![1, 1, 1]);
    let elbows: Vec<(usize, bool)> = placed.connectors.iter().map(|c| (c.row, c.elbow)).collect();
    assert_eq!(elbows, vec![(1, false), (2, true), (2, true)]);
}

#[test]
fn first_row_below_the_top_level_draws_its_connectors_too() {
    let entries = vec![file("a", 1)];
    let placed = layout(&entries, &vec![5]);
    assert_eq!(placed.connectors, vec![Connector { row: 0, level: 0, x: 30, y: 8, elbow: true }]);
}

#[test]
fn layout_keeps_the_deepest_depth_and_its_widest_label() {
    let entries = vec![folder("a", 0), file("b", 1), folder("c", 0), file("d", 1), file("e", 1)];
    let placed = layout(&entries, &vec![500, 30, 400, 70, 60]);
    assert_eq!(placed.max_depth, 1);
    assert_eq!(placed.max_label_width, 70);
}

#[test]
fn empty_listing_has_an_empty_layout() {
    let placed = layout(&Vec::new(), &Vec::new());
    assert!(placed.rows.is_empty());
    assert!(placed.connectors.is_empty());
    assert_eq!(placed.max_depth, 0);
    assert_eq!(placed.max_label_width, 0);
    let theme = BuiltInThemes::Default.get_theme();
    let doc = compose_svg_from_filestruct(Vec::new(), theme, &Vec::new(), &[], false, None, None);
    assert_eq!(doc.width, 40);
    assert_eq!(doc.height, 30);
}

#[test]
fn canvas_is_as_wide_as_the_deepest_rows_need() {
    let entries = vec![folder("a", 0), file("b", 1), file("c", 1)];
    assert_eq!(canvas_width(&entries, &[300, 25, 45]), 45 + 20 + 2 * 20);
}

#[test]
fn wider_labels_never_narrow_the_canvas() {
    let entries = vec![folder("a", 0), file("b", 1), folder("c", 1), file("d", 2), file("e", 0)];
    let narrow = [10, 20, 30, 40, 50];
    let base = canvas_width(&entries, &narrow);
    for i in 0..narrow.len() {
        let mut wide = narrow;
        wide[i] += 25;
        assert!(canvas_width(&entries, &wide) >= base);
    }
    let mut wide = narrow;
    wide[3] += 25;
    assert_eq!(canvas_width(&entries, &wide), base + 25);
}

#[test]
fn explicit_size_overrides_the_computed_one() {
    let entries = vec![folder("a", 0), file("b", 1)];
    let theme = BuiltInThemes::Default.get_theme();
    let doc =
        compose_svg_from_filestruct(entries, theme, &vec![10, 10], &[], false, Some(640), Some(7));
    assert_eq!(doc.width, 640);
    assert_eq!(doc.height, 7);
}

#[test]
fn primitives_come_in_the_order_of_drawing() {
    let entries = vec![folder("a", 0), file("b", 1)];
    let theme = BuiltInThemes::Default.get_theme();
    let doc = compose_svg_from_filestruct(entries, theme, &vec![10, 12], &[1, 2, 3], true, None, None);
    assert_eq!(doc.primitives.len(), 5);
    assert!(matches!(doc.primitives[0], Primitive::FontFace { .. }));
    assert_eq!(
        doc.primitives[1],
        Primitive::Background { color: "#FFFFFF".to_string(), corner_radius: 0 }
    );
    assert_eq!(
        doc.primitives[2],
        Primitive::Line { x: 30, y: 30, elbow: true, color: "#555555".to_string() }
    );
    assert_eq!(
        doc.primitives[3],
        Primitive::Label {
            kind: FsEntryType::Folder,
            text: "a".to_string(),
            x: 20,
            y: 30,
            box_width: 16,
            corner_radius: 2,
            font: "Arial".to_string(),
            font_size: 14,
            text_color: "#111111".to_string(),
            box_color: "#F5F5F5".to_string(),
        }
    );
    assert_eq!(
        doc.primitives[4],
        Primitive::Label {
            kind: FsEntryType::File,
            text: "b".to_string(),
            x: 40,
            y: 52,
            box_width: 18,
            corner_radius: 2,
            font: "Arial".to_string(),
            font_size: 14,
            text_color: "#333333".to_string(),
            box_color: "#FAFAFA".to_string(),
        }
    );
}

#[test]
fn theme_without_background_draws_none() {
    let mut theme = BuiltInThemes::Default.get_theme();
    theme.bg_color = None;
    let doc = compose_svg_from_filestruct(vec![file("a", 0)], theme, &vec![10], &[], false, None, None);
    assert_eq!(doc.primitives.len(), 1);
    assert!(matches!(doc.primitives[0], Primitive::Label { .. }));
}

#[test]
fn hierarchy_line_takes_the_colour_of_the_theme() {
    let theme = BuiltInThemes::DefaultDark.get_theme();
    assert_eq!(
        compose_hierarchy_line(30, 8, false, &theme),
        Primitive::Line { x: 30, y: 8, elbow: false, color: "#DDDDDD".to_string() }
    );
}
