//! The on-disk layout of installed versions.
//!
//! Layout under the base directory `<home>/.centy`:
//! `bin/<project>/<version>/<binary>` is the permanent home of each installed
//! binary, and `current/<binary>` is the activation link to the binary most
//! recently installed under that name. The links live beside `bin/`, not in
//! it, because each project's directory in `bin/` already carries the name of
//! its binary.
use vstd::prelude::*;

use crate::error::InstallerError;
use crate::text::{chars_of, push_all, string_of};

verus! {

/// `a/b`.
pub open spec fn path_join(a: Seq<char>, b: Seq<char>) -> Seq<char> {
    a + seq!['/'] + b
}

/// Joins two path parts with a `/`.
pub fn join(a: &str, b: &str) -> (r: String)
    ensures
        r@ == path_join(a@, b@),
{
    let mut out = chars_of(a);
    out.push('/');
    let tail = chars_of(b);
    push_all(&mut out, tail.as_slice());
    string_of(out.as_slice())
}

/// Relies on `dirs::home_dir`, converted to text; `None` when there is no
/// home directory or it is not valid UTF-8. Nothing is promised of the
/// directory it reports.
#[verifier::external_body]
fn home_dir_text() -> (r: Option<String>) {
    dirs::home_dir().and_then(|p| p.to_str().map(|s| s.to_string()))
}

/// The installation paths, all below one base directory.
#[derive(Debug, Clone)]
pub struct InstallPaths {
    base_dir: String,
}

impl View for InstallPaths {
    type V = Seq<char>;

    closed spec fn view(&self) -> Seq<char> {
        self.base_dir@
    }
}

/// The base directory for a home directory.
pub open spec fn spec_base_for_home(home: Seq<char>) -> Seq<char> {
    path_join(home, ".centy"@)
}

pub open spec fn spec_bin_dir(base: Seq<char>) -> Seq<char> {
    path_join(base, "bin"@)
}

pub open spec fn spec_project_dir(base: Seq<char>, project: Seq<char>) -> Seq<char> {
    path_join(spec_bin_dir(base), project)
}

pub open spec fn spec_version_dir(base: Seq<char>, project: Seq<char>, version: Seq<char>) -> Seq<
    char,
> {
    path_join(spec_project_dir(base, project), version)
}

pub open spec fn spec_binary_path(
    base: Seq<char>,
    project: Seq<char>,
    version: Seq<char>,
    binary: Seq<char>,
) -> Seq<char> {
    path_join(spec_version_dir(base, project, version), binary)
}

pub open spec fn spec_links_dir(base: Seq<char>) -> Seq<char> {
    path_join(base, "current"@)
}

pub open spec fn spec_symlink_path(base: Seq<char>, binary: Seq<char>) -> Seq<char> {
    path_join(spec_links_dir(base), binary)
}

impl InstallPaths {
    /// Paths below `<home>/.centy` for the current user's home directory;
    /// `HomeDirNotFound` when it cannot be determined.
    pub fn new() -> (r: Result<InstallPaths, InstallerError>)
        ensures
            r matches Ok(p) ==> exists|h: Seq<char>| p@ == spec_base_for_home(h),
            r matches Err(e) ==> e == InstallerError::HomeDirNotFound,
    {
        match home_dir_text() {
            Some(home) => Ok(InstallPaths::for_home(home.as_str())),
            None => Err(InstallerError::HomeDirNotFound),
        }
    }

    /// Paths below `<home>/.centy`.
    pub fn for_home(home: &str) -> (r: InstallPaths)
        ensures
            r@ == spec_base_for_home(home@),
    {
        InstallPaths { base_dir: join(home, ".centy") }
    }

    /// Paths below the given base directory.
    pub fn with_base_dir(base_dir: String) -> (r: InstallPaths)
        ensures
            r@ == base_dir@,
    {
        InstallPaths { base_dir }
    }

    /// The base directory.
    pub fn base_dir(&self) -> (r: &String)
        ensures
            r@ == self@,
    {
        &self.base_dir
    }

    /// `<base>/bin`.
    pub fn bin_dir(&self) -> (r: String)
        ensures
            r@ == spec_bin_dir(self@),
    {
        join(self.base_dir.as_str(), "bin")
    }

    /// `<base>/bin/<project>`.
    pub fn project_dir(&self, project: &str) -> (r: String)
        ensures
            r@ == spec_project_dir(self@, project@),
    {
        let bin = self.bin_dir();
        join(bin.as_str(), project)
    }

    /// `<base>/bin/<project>/<version>`.
    pub fn version_dir(&self, project: &str, version: &str) -> (r: String)
        ensures
            r@ == spec_version_dir(self@, project@, version@),
    {
        let dir = self.project_dir(project);
        join(dir.as_str(), version)
    }

    /// `<base>/bin/<project>/<version>/<binary>`.
    pub fn binary_path(&self, project: &str, version: &str, binary: &str) -> (r: String)
        ensures
            r@ == spec_binary_path(self@, project@, version@, binary@),
    {
        let dir = self.version_dir(project, version);
        join(dir.as_str(), binary)
    }

    /// `<base>/current`, the directory of activation links.
    pub fn links_dir(&self) -> (r: String)
        ensures
            r@ == spec_links_dir(self@),
    {
        join(self.base_dir.as_str(), "current")
    }

    /// `<base>/current/<binary>`, the activation link of a binary name.
    pub fn symlink_path(&self, binary: &str) -> (r: String)
        ensures
            r@ == spec_symlink_path(self@, binary@),
    {
        let dir = self.links_dir();
        join(dir.as_str(), binary)
    }
}

} // verus!
