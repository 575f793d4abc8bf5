//! Release metadata and the choices made from it.
use vstd::prelude::*;

use crate::error::InstallerError;
use crate::project::Project;
use crate::text::{cat, strip_leading_v, trim_leading_v};

verus! {

/// A release as the release API lists it.
#[derive(Debug)]
pub struct GitHubRelease {
    pub tag_name: String,
    pub name: Option<String>,
    pub prerelease: bool,
    pub draft: bool,
    pub assets: Vec<GitHubAsset>,
}

/// A downloadable file of a release.
#[derive(Debug)]
pub struct GitHubAsset {
    pub name: String,
    pub browser_download_url: String,
    pub size: u64,
}

/// The releases of `s` that are not drafts, in their order.
pub open spec fn non_drafts(s: Seq<GitHubRelease>) -> Seq<GitHubRelease>
    decreases s.len(),
{
    if s.len() == 0 {
        s
    } else if s.last().draft {
        non_drafts(s.drop_last())
    } else {
        non_drafts(s.drop_last()).push(s.last())
    }
}

/// Whether a release is offered: no draft, and a prerelease only when asked.
pub open spec fn offered(r: GitHubRelease, include_prerelease: bool) -> bool {
    !r.draft && (include_prerelease || !r.prerelease)
}

/// The tags, without leading `v`s, of the offered releases of `s`.
pub open spec fn offered_versions(s: Seq<GitHubRelease>, include_prerelease: bool) -> Seq<
    Seq<char>,
>
    decreases s.len(),
{
    if s.len() == 0 {
        Seq::empty()
    } else if offered(s.last(), include_prerelease) {
        offered_versions(s.drop_last(), include_prerelease).push(
            strip_leading_v(s.last().tag_name@),
        )
    } else {
        offered_versions(s.drop_last(), include_prerelease)
    }
}

/// The tag, without leading `v`s, of the first stable release of `s`.
pub open spec fn latest_stable(s: Seq<GitHubRelease>) -> Option<Seq<char>>
    decreases s.len(),
{
    if s.len() == 0 {
        None
    } else if offered(s[0], false) {
        Some(strip_leading_v(s[0].tag_name@))
    } else {
        latest_stable(s.drop_first())
    }
}

/// Keeps the releases that are not drafts, in their order.
pub fn drop_drafts(releases: Vec<GitHubRelease>) -> (r: Vec<GitHubRelease>)
    ensures
        r@ == non_drafts(releases@),
{
    let ghost all = releases@;
    let mut out: Vec<GitHubRelease> = Vec::new();
    for rel in it: releases
        invariant
            it.seq() == all,
            out@ == non_drafts(all.take(it.index() as int)),
    {
        let ghost k = it.index();
        assert(all.take(k + 1).drop_last() =~= all.take(k as int));
        if !rel.draft {
            out.push(rel);
        }
    }
    assert(all.take(all.len() as int) =~= all);
    out
}

/// The versions on offer, newest first as the API lists them: tags without
/// leading `v`s, of releases that are not drafts, and not prereleases
/// unless `include_prerelease`.
pub fn available_versions(releases: &Vec<GitHubRelease>, include_prerelease: bool) -> (r: Vec<
    String,
>)
    ensures
        r@.map_values(|t: String| t@) == offered_versions(releases@, include_prerelease),
{
    let mut out: Vec<String> = Vec::new();
    let mut i: usize = 0;
    while i < releases.len()
        invariant
            i <= releases@.len(),
            out@.map_values(|t: String| t@) == offered_versions(
                releases@.take(i as int),
                include_prerelease,
            ),
        decreases releases@.len() - i,
    {
        let rel = &releases[i];
        assert(releases@.take(i + 1).drop_last() =~= releases@.take(i as int));
        if !rel.draft && (include_prerelease || !rel.prerelease) {
            let v = trim_leading_v(rel.tag_name.as_str());
            out.push(v);
        }
        i = i + 1;
        assert(out@.map_values(|t: String| t@) =~= offered_versions(
            releases@.take(i as int),
            include_prerelease,
        ));
    }
    assert(releases@.take(i as int) =~= releases@);
    out
}

/// The version of the first release that is neither a draft nor a
/// prerelease, without leading `v`s; `VersionNotFound` when there is none.
pub fn latest_version(releases: &Vec<GitHubRelease>) -> (r: Result<String, InstallerError>)
    ensures
        match latest_stable(releases@) {
            Some(t) => r matches Ok(v) && v@ == t,
            None => r matches Err(InstallerError::VersionNotFound(m)) && m@
                == "no stable releases found"@,
        },
{
    let mut i: usize = 0;
    assert(releases@.skip(0) =~= releases@);
    while i < releases.len()
        invariant
            i <= releases@.len(),
            latest_stable(releases@) == latest_stable(releases@.skip(i as int)),
        decreases releases@.len() - i,
    {
        let rel = &releases[i];
        if !rel.draft && !rel.prerelease {
            return Ok(trim_leading_v(rel.tag_name.as_str()));
        }
        assert(releases@.skip(i as int).drop_first() =~= releases@.skip(i + 1));
        i = i + 1;
    }
    Err(InstallerError::VersionNotFound("no stable releases found".to_owned()))
}

/// `https://api.github.com/repos/<org>/<repo>/releases`.
pub fn releases_url(org: &str, project: Project) -> (r: String)
    ensures
        r@ == "https://api.github.com/repos/"@ + org@ + "/"@ + project.spec_repo_name()
            + "/releases"@,
{
    let a = cat("https://api.github.com/repos/", org);
    let b = cat(a.as_str(), "/");
    let c = cat(b.as_str(), project.repo_name());
    cat(c.as_str(), "/releases")
}

/// The outcome of the release listing's HTTP status: a success status
/// (200 to 299) goes on, any other is `ProjectNotFound` for the project.
pub fn release_status(status: u16, project: Project) -> (r: Result<(), InstallerError>)
    ensures
        200 <= status <= 299 ==> r is Ok,
        !(200 <= status <= 299) ==> (r matches Err(InstallerError::ProjectNotFound(n)) && n@
            == project.spec_name()),
{
    if 200 <= status && status <= 299 {
        Ok(())
    } else {
        Err(InstallerError::ProjectNotFound(project.name().to_owned()))
    }
}

} // verus!
