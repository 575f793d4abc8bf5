use centy_installer::search::{find_binary, DirEntry};

fn file(name: &str) -> DirEntry {
    DirEntry { name: name.to_string(), is_file: true, children: Vec::new() }
}

fn dir(name: &str, children: Vec<DirEntry>) -> DirEntry {
    DirEntry { name: name.to_string(), is_file: false, children }
}

#[test]
fn binary_at_the_root() {
    let tree = vec![file("README"), file("centy-tui")];
    assert_eq!(find_binary(&tree, "centy-tui"), Some(vec!["centy-tui".to_string()]));
}

#[test]
fn binary_nested_two_directories_deep() {
    let tree = vec![dir("a", vec![dir("b", vec![file("centy-tui")])])];
    assert_eq!(
        find_binary(&tree, "centy-tui"),
        Some(vec!["a".to_string(), "b".to_string(), "centy-tui".to_string()])
    );
}

#[test]
fn direct_file_wins_over_earlier_directories() {
    let tree = vec![dir("a", vec![file("tool")]), file("tool")];
    assert_eq!(find_binary(&tree, "tool"), Some(vec!["tool".to_string()]));
}

#[test]
fn first_directory_in_order_wins() {
    let tree = vec![dir("x", vec![dir("y", vec![file("tool")])]), dir("z", vec![file("tool")])];
    assert_eq!(
        find_binary(&tree, "tool"),
        Some(vec!["x".to_string(), "y".to_string(), "tool".to_string()])
    );
}

#[test]
fn directories_with_the_name_do_not_match() {
    let tree = vec![dir("tool", vec![file("other")])];
    assert_eq!(find_binary(&tree, "tool"), None);
    assert_eq!(find_binary(&Vec::new(), "tool"), None);
}

#[test]
fn nested_binary_found_among_other_entries() {
    let tree = vec![
        file("README"),
        dir("docs", vec![file("guide"), dir("img", vec![file("logo")])]),
        dir("x", vec![file("LICENSE"), dir("empty", Vec::new()), dir("y", vec![file("other"), file("centy-tui")])]),
        file("CHANGELOG"),
    ];
    assert_eq!(
        find_binary(&tree, "centy-tui"),
        Some(vec!["x".to_string(), "y".to_string(), "centy-tui".to_string()])
    );
}
