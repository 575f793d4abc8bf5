//! The decisions of the install pipeline: where an archive is fetched from,
//! how it is unpacked, where the binary goes and what each failure reports.
use vstd::prelude::*;

use crate::error::InstallerError;
use crate::paths::{
    spec_binary_path, spec_links_dir, spec_symlink_path, spec_version_dir, InstallPaths,
};
use crate::project::Project;
use crate::text::{cat, chars_of, push_all, push_dec, dec, same_text, string_of};

verus! {

/// Where releases come from.
#[derive(Debug, Clone)]
pub struct InstallerConfig {
    /// Owner of the release repositories.
    pub github_org: String,
    /// Base URL of downloads, used in place of the release pages when set.
    pub download_base_url: Option<String>,
}

impl Default for InstallerConfig {
    fn default() -> (r: InstallerConfig)
        ensures
            r.github_org@ == "centy-io"@,
            r.download_base_url is None,
    {
        InstallerConfig { github_org: "centy-io".to_owned(), download_base_url: None }
    }
}

/// The two archive formats that releases ship in.
#[derive(Debug, Clone, Copy, PartialEq, Eq, Structural)]
pub enum ArchiveFormat {
    TarGz,
    Zip,
}

impl ArchiveFormat {
    pub open spec fn spec_extension(self) -> Seq<char> {
        match self {
            ArchiveFormat::TarGz => "tar.gz"@,
            ArchiveFormat::Zip => "zip"@,
        }
    }

    /// The file extension, without the dot.
    pub fn extension(&self) -> (r: &'static str)
        ensures
            r@ == self.spec_extension(),
    {
        match self {
            ArchiveFormat::TarGz => "tar.gz",
            ArchiveFormat::Zip => "zip",
        }
    }

    /// The format of an extension; `ExtractFailed` for any other.
    pub fn from_extension(ext: &str) -> (r: Result<ArchiveFormat, InstallerError>)
        ensures
            ext@ == "tar.gz"@ ==> r == Ok::<ArchiveFormat, InstallerError>(ArchiveFormat::TarGz),
            ext@ == "zip"@ ==> r == Ok::<ArchiveFormat, InstallerError>(ArchiveFormat::Zip),
            ext@ != "tar.gz"@ && ext@ != "zip"@ ==> (r matches Err(InstallerError::ExtractFailed(m))
                && m@ == "Unknown archive format: "@ + ext@),
    {
        proof {
            reveal_strlit("tar.gz");
            reveal_strlit("zip");
            assert("tar.gz"@.len() != "zip"@.len());
        }
        if same_text(ext, "tar.gz") {
            Ok(ArchiveFormat::TarGz)
        } else if same_text(ext, "zip") {
            Ok(ArchiveFormat::Zip)
        } else {
            Err(InstallerError::ExtractFailed(cat("Unknown archive format: ", ext)))
        }
    }
}

/// The conventional target-triple ending of an operating system name.
pub open spec fn os_triple(os: Seq<char>) -> Seq<char> {
    if os == "macos"@ {
        "apple-darwin"@
    } else if os == "linux"@ {
        "unknown-linux-gnu"@
    } else if os == "windows"@ {
        "pc-windows-msvc"@
    } else {
        os
    }
}

/// Windows gets zip archives, every other system gzip-compressed tar.
pub open spec fn os_format(os: Seq<char>) -> ArchiveFormat {
    if os == "windows"@ {
        ArchiveFormat::Zip
    } else {
        ArchiveFormat::TarGz
    }
}

/// The target `<arch>-<triple ending>` and the archive format for a
/// platform, given as `std::env::consts` names its system and architecture.
pub fn platform_target(os: &str, arch: &str) -> (r: (String, ArchiveFormat))
    ensures
        r.0@ == arch@ + "-"@ + os_triple(os@),
        r.1 == os_format(os@),
{
    let os_name: &str = if same_text(os, "macos") {
        "apple-darwin"
    } else if same_text(os, "linux") {
        "unknown-linux-gnu"
    } else if same_text(os, "windows") {
        "pc-windows-msvc"
    } else {
        os
    };
    let format = if same_text(os, "windows") {
        ArchiveFormat::Zip
    } else {
        ArchiveFormat::TarGz
    };
    let a = cat(arch, "-");
    (cat(a.as_str(), os_name), format)
}

/// A version as a release tag: with one leading `v` added when absent.
pub open spec fn spec_version_tag(version: Seq<char>) -> Seq<char> {
    if version.len() > 0 && version[0] == 'v' {
        version
    } else {
        "v"@ + version
    }
}

/// The release tag of a version.
pub fn version_tag(version: &str) -> (r: String)
    ensures
        r@ == spec_version_tag(version@),
{
    let all = chars_of(version);
    if all.len() > 0 && all[0] == 'v' {
        version.to_owned()
    } else {
        cat("v", version)
    }
}

/// `<binary>-<tag>-<target>.<ext>`.
pub open spec fn spec_archive_name(
    binary: Seq<char>,
    version: Seq<char>,
    target: Seq<char>,
    format: ArchiveFormat,
) -> Seq<char> {
    binary + "-"@ + spec_version_tag(version) + "-"@ + target + "."@ + format.spec_extension()
}

/// Where the archive of a version is downloaded from: below the configured
/// base URL as `<base>/<project>/<version>/<archive>`, or else from the
/// release page `https://github.com/<org>/<repo>/releases/download/<tag>/<archive>`.
pub open spec fn spec_download_url(
    config: InstallerConfig,
    project: Project,
    version: Seq<char>,
    target: Seq<char>,
    format: ArchiveFormat,
) -> Seq<char> {
    let archive = spec_archive_name(project.spec_binary_name(), version, target, format);
    match config.download_base_url {
        Some(base) => base@ + "/"@ + project.spec_name() + "/"@ + version + "/"@ + archive,
        None => "https://github.com/"@ + config.github_org@ + "/"@ + project.spec_repo_name()
            + "/releases/download/"@ + spec_version_tag(version) + "/"@ + archive,
    }
}

/// The archive file name of a version for a target.
pub fn archive_name(project: Project, version: &str, target: &str, format: ArchiveFormat) -> (r:
    String)
    ensures
        r@ == spec_archive_name(project.spec_binary_name(), version@, target@, format),
{
    let tag = version_tag(version);
    let a = cat(project.binary_name(), "-");
    let b = cat(a.as_str(), tag.as_str());
    let c = cat(b.as_str(), "-");
    let d = cat(c.as_str(), target);
    let e = cat(d.as_str(), ".");
    cat(e.as_str(), format.extension())
}

/// The download URL of a version's archive for a target.
pub fn download_url(
    config: &InstallerConfig,
    project: Project,
    version: &str,
    target: &str,
    format: ArchiveFormat,
) -> (r: String)
    ensures
        r@ == spec_download_url(*config, project, version@, target@, format),
{
    let archive = archive_name(project, version, target, format);
    match &config.download_base_url {
        Some(base) => {
            let a = cat(base.as_str(), "/");
            let b = cat(a.as_str(), project.name());
            let c = cat(b.as_str(), "/");
            let d = cat(c.as_str(), version);
            let e = cat(d.as_str(), "/");
            cat(e.as_str(), archive.as_str())
        },
        None => {
            let tag = version_tag(version);
            let a = cat("https://github.com/", config.github_org.as_str());
            let b = cat(a.as_str(), "/");
            let c = cat(b.as_str(), project.repo_name());
            let d = cat(c.as_str(), "/releases/download/");
            let e = cat(d.as_str(), tag.as_str());
            let f = cat(e.as_str(), "/");
            cat(f.as_str(), archive.as_str())
        },
    }
}

/// Everything an install of one (project, version) needs to know before it
/// touches the filesystem or the network.
#[derive(Debug)]
pub struct InstallPlan {
    /// The version directory to create.
    pub version_dir: String,
    /// The permanent home of the installed binary.
    pub binary_path: String,
    /// The directory of activation links to create.
    pub links_dir: String,
    /// The activation link to replace.
    pub symlink_path: String,
    /// Where the archive is downloaded from.
    pub url: String,
    /// How the archive is unpacked.
    pub format: ArchiveFormat,
}

/// The plan of an install of `version` of `project` on the platform that
/// `os` and `arch` name.
pub fn plan_install(
    paths: &InstallPaths,
    config: &InstallerConfig,
    project: Project,
    version: &str,
    os: &str,
    arch: &str,
) -> (r: InstallPlan)
    ensures
        r.version_dir@ == spec_version_dir(paths@, project.spec_name(), version@),
        r.binary_path@ == spec_binary_path(
            paths@,
            project.spec_name(),
            version@,
            project.spec_binary_name(),
        ),
        r.links_dir@ == spec_links_dir(paths@),
        r.symlink_path@ == spec_symlink_path(paths@, project.spec_binary_name()),
        r.format == os_format(os@),
        r.url@ == spec_download_url(
            *config,
            project,
            version@,
            arch@ + "-"@ + os_triple(os@),
            os_format(os@),
        ),
{
    let (target, format) = platform_target(os, arch);
    InstallPlan {
        version_dir: paths.version_dir(project.name(), version),
        binary_path: paths.binary_path(project.name(), version, project.binary_name()),
        links_dir: paths.links_dir(),
        symlink_path: paths.symlink_path(project.binary_name()),
        url: download_url(config, project, version, target.as_str(), format),
        format,
    }
}

/// The outcome of a download's HTTP status: a success or redirection
/// status (200 to 399) goes on, any other is `DownloadFailed` with
/// `HTTP <status>: <url>`.
pub fn download_status(status: u16, url: &str) -> (r: Result<(), InstallerError>)
    ensures
        200 <= status <= 399 ==> r is Ok,
        !(200 <= status <= 399) ==> (r matches Err(InstallerError::DownloadFailed(m)) && m@
            == "HTTP "@ + dec(status as nat) + ": "@ + url@),
{
    if 200 <= status && status <= 399 {
        return Ok(());
    }
    let mut out = chars_of("HTTP ");
    push_dec(&mut out, status as u32);
    let sep = chars_of(": ");
    push_all(&mut out, sep.as_slice());
    let u = chars_of(url);
    push_all(&mut out, u.as_slice());
    let m = string_of(out.as_slice());
    assert(m@ =~= "HTTP "@ + dec(status as nat) + ": "@ + url@);
    Err(InstallerError::DownloadFailed(m))
}

/// `<display name> version <version>`.
pub open spec fn spec_release_label(project: Project, version: Seq<char>) -> Seq<char> {
    project.spec_display_name() + " version "@ + version
}

fn release_label(project: Project, version: &str) -> (r: String)
    ensures
        r@ == spec_release_label(project, version@),
{
    let a = cat(project.display_name(), " version ");
    cat(a.as_str(), version)
}

/// Whether an uninstall of a version may go on: only when its binary is
/// installed; otherwise `VersionNotFound` naming the version.
pub fn uninstall_check(project: Project, version: &str, installed: bool) -> (r: Result<
    (),
    InstallerError,
>)
    ensures
        installed ==> r is Ok,
        !installed ==> (r matches Err(InstallerError::VersionNotFound(m)) && m@
            == spec_release_label(project, version@)),
{
    if installed {
        Ok(())
    } else {
        Err(InstallerError::VersionNotFound(release_label(project, version)))
    }
}

/// The path of an installed binary when the file is present; otherwise
/// `BinaryNotFound` naming the version. No other version is tried.
pub fn installed_binary(path: String, present: bool, project: Project, version: &str) -> (r:
    Result<String, InstallerError>)
    ensures
        present ==> (r matches Ok(p) && p@ == path@),
        !present ==> (r matches Err(InstallerError::BinaryNotFound(m)) && m@
            == spec_release_label(project, version@)),
{
    if present {
        Ok(path)
    } else {
        Err(InstallerError::BinaryNotFound(release_label(project, version)))
    }
}

/// The entries of `s` whose version list is not empty, in their order.
pub open spec fn nonempty_entries(s: Seq<(Project, Vec<String>)>) -> Seq<(Project, Vec<String>)>
    decreases s.len(),
{
    if s.len() == 0 {
        s
    } else if s.last().1@.len() == 0 {
        nonempty_entries(s.drop_last())
    } else {
        nonempty_entries(s.drop_last()).push(s.last())
    }
}

/// The installed listing: the (project, versions) pairs with at least one
/// version, in their order.
pub fn installed_listing(listing: Vec<(Project, Vec<String>)>) -> (r: Vec<(Project, Vec<String>)>)
    ensures
        r@ == nonempty_entries(listing@),
{
    let ghost all = listing@;
    let mut out: Vec<(Project, Vec<String>)> = Vec::new();
    for entry in it: listing
        invariant
            it.seq() == all,
            out@ == nonempty_entries(all.take(it.index() as int)),
    {
        let ghost k = it.index();
        assert(all.take(k + 1).drop_last() =~= all.take(k as int));
        if entry.1.len() > 0 {
            out.push(entry);
        }
    }
    assert(all.take(all.len() as int) =~= all);
    out
}

proof fn lemma_single_entry_prefix(s: Seq<(Project, Vec<String>)>, k: int, n: int)
    requires
        0 <= k < s.len(),
        0 <= n <= s.len(),
        s[k].1@.len() > 0,
        forall|j: int| 0 <= j < s.len() && j != k ==> (#[trigger] s[j]).1@.len() == 0,
    ensures
        nonempty_entries(s.take(n)) == (if n > k {
            seq![s[k]]
        } else {
            Seq::<(Project, Vec<String>)>::empty()
        }),
    decreases n,
{
    if n > 0 {
        lemma_single_entry_prefix(s, k, n - 1);
        assert(s.take(n).drop_last() =~= s.take(n - 1));
        assert(s.take(n).last() == s[n - 1]);
        if n - 1 == k {
            assert(Seq::<(Project, Vec<String>)>::empty().push(s[k]) =~= seq![s[k]]);
        }
    } else {
        assert(s.take(0) =~= Seq::<(Project, Vec<String>)>::empty());
    }
}

/// Listing with a single installed project: when the entry at `k` is the
/// only one with versions, the installed listing is exactly that entry,
/// its versions as given (ascending when they come from `sort_names`).
pub proof fn lemma_single_installed_project(s: Seq<(Project, Vec<String>)>, k: int)
    requires
        0 <= k < s.len(),
        s[k].1@.len() > 0,
        forall|j: int| 0 <= j < s.len() && j != k ==> (#[trigger] s[j]).1@.len() == 0,
    ensures
        nonempty_entries(s) == seq![s[k]],
{
    lemma_single_entry_prefix(s, k, s.len() as int);
    assert(s.take(s.len() as int) =~= s);
}

} // verus!
