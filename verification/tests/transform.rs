use glimmr::fs_parser::fs_structs::{FlatFsEntry, FsEntryType};
use glimmr::transform::{collapse_folders, do_transforms};

fn folder(name: &str, depth: u32) -> FlatFsEntry {
    FlatFsEntry { name: name.to_string(), entry_type: FsEntryType::Folder, depth }
}

fn file(name: &str, depth: u32) -> FlatFsEntry {
    FlatFsEntry { name: name.to_string(), entry_type: FsEntryType::File, depth }
}

fn no_folder_holds_one_folder_only(entries: &[FlatFsEntry]) -> bool {
    (0..entries.len()).all(|i| {
        let children: Vec<usize> = (i + 1..entries.len())
            .take_while(|&j| entries[j].depth > entries[i].depth)
            .filter(|&j| entries[j].depth == entries[i].depth + 1)
            .collect();
        !(entries[i].entry_type == FsEntryType::Folder
            && children.len() == 1
            && entries[children[0]].entry_type == FsEntryType::Folder)
    })
}

fn pre_order(entries: &[FlatFsEntry]) -> bool {
    entries.windows(2).all(|pair| pair[1].depth <= pair[0].depth + 1)
}

#[test]
fn collapses_a_chain_of_two_folders() {
    let input = vec![folder("a", 0), folder("b", 1), file("c.txt", 2)];
    let expected = vec![folder("a/b", 0), file("c.txt", 1)];
    assert_eq!(collapse_folders(input), expected);
}

#[test]
fn collapses_a_chain_of_three_folders() {
    let input = vec![folder("a", 0), folder("b", 1), folder("c", 2), file("x", 3), file("y", 3)];
    let expected = vec![folder("a/b/c", 0), file("x", 1), file("y", 1)];
    assert_eq!(collapse_folders(input), expected);
}

#[test]
fn chain_ends_at_an_empty_folder() {
    let input = vec![folder("a", 0), folder("b", 1), file("z", 0)];
    let expected = vec![folder("a/b", 0), file("z", 0)];
    assert_eq!(collapse_folders(input), expected);
}

#[test]
fn keeps_descendants_nested_below_the_merged_folder() {
    let input = vec![
        folder("root", 0),
        folder("src", 1),
        folder("bin", 2),
        file("main.rs", 3),
        folder("lib", 2),
        file("lib.rs", 3),
        file("README", 0),
    ];
    let expected = vec![
        folder("root/src", 0),
        folder("bin", 1),
        file("main.rs", 2),
        folder("lib", 1),
        file("lib.rs", 2),
        file("README", 0),
    ];
    assert_eq!(collapse_folders(input), expected);
}

#[test]
fn empty_folder_is_kept() {
    let input = vec![folder("a", 0), folder("b", 0)];
    assert_eq!(collapse_folders(input.clone()), input);
}

#[test]
fn folder_with_a_single_file_is_kept() {
    let input = vec![folder("a", 0), file("only.txt", 1)];
    assert_eq!(collapse_folders(input.clone()), input);
}

#[test]
fn folder_with_several_children_is_kept() {
    let input = vec![folder("a", 0), folder("b", 1), folder("c", 1), file("d", 2)];
    assert_eq!(collapse_folders(input.clone()), input);
}

#[test]
fn files_are_kept() {
    let input = vec![file("a", 0), file("b", 0)];
    assert_eq!(collapse_folders(input.clone()), input);
}

#[test]
fn empty_listing_stays_empty() {
    assert_eq!(collapse_folders(Vec::new()), Vec::new());
}

#[test]
fn chains_one_after_the_other_are_all_merged() {
    let input = vec![
        folder("a", 0),
        folder("b", 1),
        file("f", 2),
        folder("c", 0),
        folder("d", 1),
        folder("e", 2),
    ];
    let expected = vec![folder("a/b", 0), file("f", 1), folder("c/d/e", 0)];
    assert_eq!(collapse_folders(input), expected);
}

#[test]
fn chain_below_a_kept_folder_is_merged() {
    let input = vec![
        folder("top", 0),
        file("x", 1),
        folder("a", 1),
        folder("b", 2),
        file("y", 3),
    ];
    let expected = vec![folder("top", 0), file("x", 1), folder("a/b", 1), file("y", 2)];
    assert_eq!(collapse_folders(input), expected);
}

#[test]
fn collapsing_twice_equals_collapsing_once() {
    let input = vec![
        folder("root", 0),
        folder("src", 1),
        folder("bin", 2),
        file("main.rs", 3),
        folder("lib", 2),
        file("lib.rs", 3),
        folder("docs", 0),
        folder("img", 1),
        file("logo.png", 2),
    ];
    let once = collapse_folders(input);
    let twice = collapse_folders(once.clone());
    assert_eq!(twice, once);
}

#[test]
fn chain_below_the_end_of_a_chain_is_merged_too() {
    let input = vec![
        folder("a", 0),
        folder("b", 1),
        file("x.txt", 2),
        folder("c", 2),
        folder("d", 3),
        file("e.txt", 4),
    ];
    let expected = vec![folder("a/b", 0), file("x.txt", 1), folder("c/d", 1), file("e.txt", 2)];
    let once = collapse_folders(input);
    assert_eq!(once, expected);
    assert_eq!(collapse_folders(once), expected);
}

#[test]
fn chains_nested_several_levels_deep_are_all_merged() {
    let input = vec![
        folder("a", 0),
        folder("b", 1),
        file("f", 2),
        folder("c", 2),
        folder("d", 3),
        folder("e", 4),
        file("g", 5),
        folder("h", 5),
        folder("i", 6),
        file("j", 7),
        file("k", 2),
        file("l", 0),
    ];
    let expected = vec![
        folder("a/b", 0),
        file("f", 1),
        folder("c/d/e", 1),
        file("g", 2),
        folder("h/i", 2),
        file("j", 3),
        file("k", 1),
        file("l", 0),
    ];
    let once = collapse_folders(input);
    assert_eq!(once, expected);
    assert!(no_folder_holds_one_folder_only(&once));
    assert_eq!(collapse_folders(once.clone()), once);
}

#[test]
fn no_folder_of_the_result_holds_one_folder_only() {
    let input = vec![
        folder("a", 0),
        folder("b", 1),
        folder("c", 2),
        file("d", 3),
        folder("e", 3),
        folder("f", 4),
        file("g", 1),
        folder("h", 0),
        folder("i", 1),
    ];
    assert!(!no_folder_holds_one_folder_only(&input));
    let output = collapse_folders(input);
    assert!(no_folder_holds_one_folder_only(&output));
    assert_eq!(
        output,
        vec![folder("a", 0), folder("b/c", 1), file("d", 2), folder("e/f", 2), file("g", 1),
            folder("h/i", 0)]
    );
}

#[test]
fn transforms_are_idempotent_when_collapsing() {
    let input = vec![
        folder("a", 0),
        folder("b", 1),
        file("x.txt", 2),
        folder("c", 2),
        folder("d", 3),
        file("e.txt", 4),
    ];
    let once = do_transforms(input, true);
    assert_eq!(do_transforms(once.clone(), true), once);
}

#[test]
fn collapsing_keeps_the_listing_in_pre_order() {
    let input = vec![
        folder("a", 0),
        folder("b", 1),
        folder("c", 2),
        file("d", 3),
        folder("e", 3),
        file("f", 4),
        file("g", 1),
        folder("h", 0),
        folder("i", 1),
    ];
    assert!(pre_order(&input));
    let output = collapse_folders(input);
    assert!(pre_order(&output));
    assert_eq!(
        output,
        vec![folder("a", 0), folder("b/c", 1), file("d", 2), folder("e", 2), file("f", 3),
            file("g", 1), folder("h/i", 0)]
    );
}

#[test]
fn transforms_collapse_when_asked() {
    let input = vec![folder("a", 0), folder("b", 1), file("c.txt", 2)];
    assert_eq!(do_transforms(input, true), vec![folder("a/b", 0), file("c.txt", 1)]);
}

#[test]
fn transforms_change_nothing_when_not_asked() {
    let input = vec![folder("a", 0), folder("b", 1), file("c.txt", 2)];
    assert_eq!(do_transforms(input.clone(), false), input);
}
