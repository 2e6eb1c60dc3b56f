use bili_merge::locate::{get_files_by_extension, matches_extension, DirEntry};

fn entry(name: &str, is_file: bool) -> DirEntry {
    DirEntry { name: name.to_string(), is_file }
}

#[test]
fn locate_keeps_matching_files_in_order() {
    let entries = vec![
        entry("b.m4s", true),
        entry(".videoInfo", true),
        entry("dir.m4s", false),
        entry("a.m4s", true),
        entry("cover.jpg", true),
        entry(".m4s", true),
        entry("e.tar.m4s", true),
        entry("f.M4S", true),
        entry("m4s", true),
    ];
    let found = get_files_by_extension(&entries, "m4s");
    assert_eq!(found, vec!["b.m4s".to_string(), "a.m4s".to_string(), "e.tar.m4s".to_string()]);
}

#[test]
fn locate_empty_directory_gives_nothing() {
    assert!(get_files_by_extension(&Vec::new(), "m4s").is_empty());
}

#[test]
fn extension_rules() {
    assert!(matches_extension("a.m4s", "m4s"));
    assert!(!matches_extension("a.m4s.bak", "m4s"));
    assert!(!matches_extension(".m4s", "m4s"));
    assert!(matches_extension("a.", ""));
    assert!(!matches_extension("..", ""));
    assert!(!matches_extension("a.b.c", "b.c"));
}
