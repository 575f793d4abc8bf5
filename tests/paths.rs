use centy_installer::paths::{join, InstallPaths};

#[test]
fn test_paths() {
    let paths = InstallPaths::new().unwrap();

    let bin_path = paths.binary_path("tui", "1.0.0", "centy-tui");
    assert!(bin_path.ends_with(".centy/bin/tui/1.0.0/centy-tui"));
}

#[test]
fn layout_below_home() {
    let paths = InstallPaths::for_home("/home/alice");
    assert_eq!(paths.base_dir(), "/home/alice/.centy");
    assert_eq!(paths.bin_dir(), "/home/alice/.centy/bin");
    assert_eq!(paths.project_dir("centy-tui"), "/home/alice/.centy/bin/centy-tui");
    assert_eq!(paths.version_dir("centy-tui", "1.0.0"), "/home/alice/.centy/bin/centy-tui/1.0.0");
    assert_eq!(
        paths.binary_path("centy-tui", "1.0.0", "centy-tui"),
        "/home/alice/.centy/bin/centy-tui/1.0.0/centy-tui"
    );
    assert_eq!(paths.links_dir(), "/home/alice/.centy/current");
    assert_eq!(paths.symlink_path("centy-tui"), "/home/alice/.centy/current/centy-tui");
}

#[test]
fn injected_base_dir_is_used_as_is() {
    let paths = InstallPaths::with_base_dir("/tmp/root".to_string());
    assert_eq!(paths.base_dir(), "/tmp/root");
    assert_eq!(paths.binary_path("p", "v", "b"), "/tmp/root/bin/p/v/b");
}

#[test]
fn versions_keep_separate_homes() {
    let paths = InstallPaths::with_base_dir("/r".to_string());
    let a = paths.binary_path("centy-tui", "1.0.0", "centy-tui");
    let b = paths.binary_path("centy-tui", "1.1.0", "centy-tui");
    assert_ne!(a, b);
    assert_eq!(paths.symlink_path("centy-tui"), "/r/current/centy-tui");
}

#[test]
fn join_puts_one_separator() {
    assert_eq!(join("a", "b"), "a/b");
    assert_eq!(join("", "b"), "/b");
}
