use glimmr::fs_parser::fs_structs::{FlatFsEntry, FsEntryType};
use glimmr::fs_parser::{parse_fs_flat, walk_depth_limit, WalkedEntry};

fn walked(name: &str, is_dir: bool, depth: u32) -> WalkedEntry {
    WalkedEntry { name: name.to_string(), is_dir, depth }
}

fn folder(name: &str, depth: u32) -> FlatFsEntry {
    FlatFsEntry { name: name.to_string(), entry_type: FsEntryType::Folder, depth }
}

fn file(name: &str, depth: u32) -> FlatFsEntry {
    FlatFsEntry { name: name.to_string(), entry_type: FsEntryType::File, depth }
}

fn walk() -> Vec<WalkedEntry> {
    vec![
        walked("project", true, 0),
        walked("src", true, 1),
        walked("main.rs", false, 2),
        walked("deep", true, 2),
        walked("deeper.rs", false, 3),
        walked("README.md", false, 1),
    ]
}

#[test]
fn root_is_listed_when_asked_for() {
    assert_eq!(
        parse_fs_flat(walk(), 3, true),
        vec![
            folder("project", 0),
            folder("src", 1),
            file("main.rs", 2),
            folder("deep", 2),
            file("deeper.rs", 3),
            file("README.md", 1),
        ]
    );
}

#[test]
fn without_root_everything_moves_up_one_level() {
    assert_eq!(
        parse_fs_flat(walk(), 3, false),
        vec![
            folder("src", 0),
            file("main.rs", 1),
            folder("deep", 1),
            file("deeper.rs", 2),
            file("README.md", 0),
        ]
    );
}

#[test]
fn entries_below_the_depth_limit_are_left_out() {
    assert_eq!(
        parse_fs_flat(walk(), 1, true),
        vec![folder("project", 0), folder("src", 1), file("README.md", 1)]
    );
    assert_eq!(
        parse_fs_flat(walk(), 0, false),
        vec![folder("src", 0), file("README.md", 0)]
    );
    assert_eq!(parse_fs_flat(walk(), 0, true), vec![folder("project", 0)]);
}

#[test]
fn empty_walk_gives_an_empty_listing() {
    assert_eq!(parse_fs_flat(Vec::new(), 3, true), Vec::new());
}

#[test]
fn walk_goes_one_level_deeper_without_root() {
    assert_eq!(walk_depth_limit(3, true), 3);
    assert_eq!(walk_depth_limit(3, false), 4);
    assert_eq!(walk_depth_limit(u32::MAX, false), 4294967296);
}
