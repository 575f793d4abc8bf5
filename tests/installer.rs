use centy_installer::error::InstallerError;
use centy_installer::installer::{
    archive_name, download_status, download_url, installed_binary, installed_listing,
    plan_install, platform_target, uninstall_check, version_tag, ArchiveFormat, InstallerConfig,
};
use centy_installer::listing::sort_names;
use centy_installer::paths::InstallPaths;
use centy_installer::project::Project;

#[test]
fn default_config() {
    let c = InstallerConfig::default();
    assert_eq!(c.github_org, "centy-io");
    assert_eq!(c.download_base_url, None);
}

#[test]
fn targets_per_system() {
    assert_eq!(
        platform_target("macos", "aarch64"),
        ("aarch64-apple-darwin".to_string(), ArchiveFormat::TarGz)
    );
    assert_eq!(
        platform_target("linux", "x86_64"),
        ("x86_64-unknown-linux-gnu".to_string(), ArchiveFormat::TarGz)
    );
    assert_eq!(
        platform_target("windows", "x86_64"),
        ("x86_64-pc-windows-msvc".to_string(), ArchiveFormat::Zip)
    );
    assert_eq!(
        platform_target("freebsd", "x86_64"),
        ("x86_64-freebsd".to_string(), ArchiveFormat::TarGz)
    );
}

#[test]
fn archive_formats_by_extension() {
    assert_eq!(ArchiveFormat::from_extension("tar.gz"), Ok(ArchiveFormat::TarGz));
    assert_eq!(ArchiveFormat::from_extension("zip"), Ok(ArchiveFormat::Zip));
    assert_eq!(
        ArchiveFormat::from_extension("rar"),
        Err(InstallerError::ExtractFailed("Unknown archive format: rar".to_string()))
    );
    assert_eq!(ArchiveFormat::TarGz.extension(), "tar.gz");
    assert_eq!(ArchiveFormat::Zip.extension(), "zip");
}

#[test]
fn tags_carry_one_v() {
    assert_eq!(version_tag("0.1.6"), "v0.1.6");
    assert_eq!(version_tag("v0.1.6"), "v0.1.6");
}

#[test]
fn archive_name_example() {
    assert_eq!(
        archive_name(Project::CentyDaemon, "0.1.6", "x86_64-apple-darwin", ArchiveFormat::TarGz),
        "centy-daemon-v0.1.6-x86_64-apple-darwin.tar.gz"
    );
}

#[test]
fn release_page_url() {
    let c = InstallerConfig::default();
    assert_eq!(
        download_url(&c, Project::CentyDaemon, "0.1.6", "x86_64-apple-darwin", ArchiveFormat::TarGz),
        "https://github.com/centy-io/centy-daemon/releases/download/v0.1.6/centy-daemon-v0.1.6-x86_64-apple-darwin.tar.gz"
    );
}

#[test]
fn base_url_overrides_release_page() {
    let c = InstallerConfig {
        github_org: "centy-io".to_string(),
        download_base_url: Some("https://dl.example.com".to_string()),
    };
    assert_eq!(
        download_url(&c, Project::Tui, "1.0.0", "x86_64-pc-windows-msvc", ArchiveFormat::Zip),
        "https://dl.example.com/centy-tui/1.0.0/centy-tui-v1.0.0-x86_64-pc-windows-msvc.zip"
    );
}

#[test]
fn plan_of_a_tui_install() {
    let paths = InstallPaths::with_base_dir("/h/.centy".to_string());
    let plan = plan_install(&paths, &InstallerConfig::default(), Project::Tui, "1.0.0", "linux", "x86_64");
    assert_eq!(plan.version_dir, "/h/.centy/bin/centy-tui/1.0.0");
    assert_eq!(plan.binary_path, "/h/.centy/bin/centy-tui/1.0.0/centy-tui");
    assert_eq!(plan.links_dir, "/h/.centy/current");
    assert_eq!(plan.symlink_path, "/h/.centy/current/centy-tui");
    assert_eq!(plan.format, ArchiveFormat::TarGz);
    assert_eq!(
        plan.url,
        "https://github.com/centy-io/centy-tui/releases/download/v1.0.0/centy-tui-v1.0.0-x86_64-unknown-linux-gnu.tar.gz"
    );
}

#[test]
fn reinstall_plans_share_the_link() {
    let paths = InstallPaths::with_base_dir("/h".to_string());
    let c = InstallerConfig::default();
    let a = plan_install(&paths, &c, Project::Tui, "1.0.0", "linux", "x86_64");
    let b = plan_install(&paths, &c, Project::Tui, "1.1.0", "linux", "x86_64");
    assert_eq!(a.symlink_path, b.symlink_path);
    assert_ne!(a.binary_path, b.binary_path);
}

#[test]
fn download_status_outcomes() {
    assert_eq!(download_status(200, "u"), Ok(()));
    assert_eq!(
        download_status(404, "https://x/y"),
        Err(InstallerError::DownloadFailed("HTTP 404: https://x/y".to_string()))
    );
    assert_eq!(download_status(302, "u"), Ok(()));
    assert_eq!(download_status(399, "u"), Ok(()));
    assert!(download_status(400, "u").is_err());
    assert!(download_status(500, "u").is_err());
    assert!(download_status(199, "u").is_err());
}

#[test]
fn uninstall_needs_an_installed_version() {
    assert_eq!(uninstall_check(Project::Tui, "1.0.0", true), Ok(()));
    assert_eq!(
        uninstall_check(Project::Tui, "1.0.0", false),
        Err(InstallerError::VersionNotFound("Centy TUI version 1.0.0".to_string()))
    );
}

#[test]
fn missing_binary_after_uninstall_is_binary_not_found() {
    let paths = InstallPaths::with_base_dir("/h".to_string());
    let path = paths.binary_path(Project::Tui.name(), "1.0.0", Project::Tui.binary_name());
    assert_eq!(
        installed_binary(path.clone(), false, Project::Tui, "1.0.0"),
        Err(InstallerError::BinaryNotFound("Centy TUI version 1.0.0".to_string()))
    );
    assert_eq!(installed_binary(path.clone(), true, Project::Tui, "1.0.0"), Ok(path));
}

#[test]
fn listing_of_two_tui_versions() {
    let listing = vec![
        (Project::CentyDaemon, Vec::new()),
        (Project::Tui, sort_names(vec!["1.1.0".to_string(), "1.0.0".to_string()])),
        (Project::CentyDaemonTui, Vec::new()),
        (Project::TuiManager, Vec::new()),
    ];
    let installed = installed_listing(listing);
    assert_eq!(
        installed,
        vec![(Project::Tui, vec!["1.0.0".to_string(), "1.1.0".to_string()])]
    );
}

#[test]
fn empty_listing_stays_empty() {
    assert!(installed_listing(Vec::new()).is_empty());
    assert!(sort_names(Vec::new()).is_empty());
}
