//! The closed set of installable projects and their aliases.
use vstd::prelude::*;

use crate::error::InstallerError;
use crate::text::{ascii_lower, cat, lower_of, lowercase, same_text};

verus! {

/// A project that can be installed.
#[derive(Debug, Clone, Copy, PartialEq, Eq, Hash, Structural)]
pub enum Project {
    CentyDaemon,
    Tui,
    CentyDaemonTui,
    TuiManager,
}

impl Project {
    /// The slug used in paths and URLs.
    pub open spec fn spec_name(self) -> Seq<char> {
        match self {
            Project::CentyDaemon => "centy-daemon"@,
            Project::Tui => "centy-tui"@,
            Project::CentyDaemonTui => "centy-daemon-tui"@,
            Project::TuiManager => "tui-manager"@,
        }
    }

    pub open spec fn spec_display_name(self) -> Seq<char> {
        match self {
            Project::CentyDaemon => "Centy Daemon"@,
            Project::Tui => "Centy TUI"@,
            Project::CentyDaemonTui => "Centy Daemon TUI"@,
            Project::TuiManager => "TUI Manager"@,
        }
    }

    pub open spec fn spec_binary_name(self) -> Seq<char> {
        match self {
            Project::CentyDaemon => "centy-daemon"@,
            Project::Tui => "centy-tui"@,
            Project::CentyDaemonTui => "centy-daemon-tui"@,
            Project::TuiManager => "tui-manager"@,
        }
    }

    pub open spec fn spec_repo_name(self) -> Seq<char> {
        match self {
            Project::CentyDaemon => "centy-daemon"@,
            Project::Tui => "centy-tui"@,
            Project::CentyDaemonTui => "centy-daemon-tui"@,
            Project::TuiManager => "tui-manager"@,
        }
    }

    /// The accepted aliases, in lower case.
    pub open spec fn aliases(self) -> Seq<Seq<char>> {
        match self {
            Project::CentyDaemon => seq!["daemon"@, "centy-daemon"@, "centydaemon"@],
            Project::Tui => seq!["tui"@, "centy-tui"@, "centytui"@],
            Project::CentyDaemonTui => seq!["daemon-tui"@, "centy-daemon-tui"@, "centydaemontui"@],
            Project::TuiManager => seq!["tui-manager"@, "tuimanager"@, "manager"@],
        }
    }

    /// The project path segment.
    pub fn name(&self) -> (r: &'static str)
        ensures
            r@ == self.spec_name(),
    {
        match self {
            Project::CentyDaemon => "centy-daemon",
            Project::Tui => "centy-tui",
            Project::CentyDaemonTui => "centy-daemon-tui",
            Project::TuiManager => "tui-manager",
        }
    }

    /// The human-readable name.
    pub fn display_name(&self) -> (r: &'static str)
        ensures
            r@ == self.spec_display_name(),
    {
        match self {
            Project::CentyDaemon => "Centy Daemon",
            Project::Tui => "Centy TUI",
            Project::CentyDaemonTui => "Centy Daemon TUI",
            Project::TuiManager => "TUI Manager",
        }
    }

    /// The file name of the project's binary.
    pub fn binary_name(&self) -> (r: &'static str)
        ensures
            r@ == self.spec_binary_name(),
    {
        match self {
            Project::CentyDaemon => "centy-daemon",
            Project::Tui => "centy-tui",
            Project::CentyDaemonTui => "centy-daemon-tui",
            Project::TuiManager => "tui-manager",
        }
    }

    /// The name of the project's release repository.
    pub fn repo_name(&self) -> (r: &'static str)
        ensures
            r@ == self.spec_repo_name(),
    {
        match self {
            Project::CentyDaemon => "centy-daemon",
            Project::Tui => "centy-tui",
            Project::CentyDaemonTui => "centy-daemon-tui",
            Project::TuiManager => "tui-manager",
        }
    }

    /// Every project, in declaration order.
    pub fn all() -> (r: Vec<Project>)
        ensures
            r@ == all_projects(),
    {
        vec![Project::CentyDaemon, Project::Tui, Project::CentyDaemonTui, Project::TuiManager]
    }

    /// The project of an already lower-cased alias, if it is one.
    pub fn parse_lowered(s: &str) -> (r: Option<Project>)
        ensures
            r == alias_project(s@),
    {
        if same_text(s, "daemon") || same_text(s, "centy-daemon") || same_text(s, "centydaemon") {
            Some(Project::CentyDaemon)
        } else if same_text(s, "tui") || same_text(s, "centy-tui") || same_text(s, "centytui") {
            Some(Project::Tui)
        } else if same_text(s, "daemon-tui") || same_text(s, "centy-daemon-tui") || same_text(
            s,
            "centydaemontui",
        ) {
            Some(Project::CentyDaemonTui)
        } else if same_text(s, "tui-manager") || same_text(s, "tuimanager") || same_text(
            s,
            "manager",
        ) {
            Some(Project::TuiManager)
        } else {
            None
        }
    }

    /// The project that `s` names, ignoring case.
    pub fn parse(s: &str) -> (r: Option<Project>)
        ensures
            r == alias_project(lower_of(s@)),
            vstd::string::is_ascii(s) ==> r == alias_project(ascii_lower(s@)),
    {
        let lowered = lowercase(s);
        Project::parse_lowered(lowered.as_str())
    }
}

/// Every project, in declaration order.
pub open spec fn all_projects() -> Seq<Project> {
    seq![Project::CentyDaemon, Project::Tui, Project::CentyDaemonTui, Project::TuiManager]
}

/// The project whose aliases hold `s`.
pub open spec fn alias_project(s: Seq<char>) -> Option<Project> {
    if Project::CentyDaemon.aliases().contains(s) {
        Some(Project::CentyDaemon)
    } else if Project::Tui.aliases().contains(s) {
        Some(Project::Tui)
    } else if Project::CentyDaemonTui.aliases().contains(s) {
        Some(Project::CentyDaemonTui)
    } else if Project::TuiManager.aliases().contains(s) {
        Some(Project::TuiManager)
    } else {
        None
    }
}

/// The project that `s` names, or `ProjectNotFound` carrying `s`.
pub fn parse_project(s: &str) -> (r: Result<Project, InstallerError>)
    ensures
        match alias_project(lower_of(s@)) {
            Some(p) => r == Ok::<Project, InstallerError>(p),
            None => r matches Err(InstallerError::ProjectNotFound(t)) && t@ == s@,
        },
{
    match Project::parse(s) {
        Some(p) => Ok(p),
        None => Err(InstallerError::ProjectNotFound(s.to_owned())),
    }
}

impl std::str::FromStr for Project {
    type Err = String;

    /// The project that `s` names, ignoring case; otherwise a message that
    /// names the unknown input.
    fn from_str(s: &str) -> Result<Project, String> {
        match Project::parse(s) {
            Some(p) => Ok(p),
            None => Err(cat("Unknown project: ", s)),
        }
    }
}

/// Alias matching ignores ASCII case and is exact on aliases: a text names
/// project `p` exactly when its lower case is one of `p`'s aliases, so all
/// aliases of a project, in any case, give that same project, and a text
/// that is no project's alias gives none.
pub proof fn lemma_alias_resolution(p: Project, s: Seq<char>)
    ensures
        (alias_project(ascii_lower(s)) == Some(p)) == p.aliases().contains(ascii_lower(s)),
        (forall|q: Project| !q.aliases().contains(ascii_lower(s))) ==> alias_project(
            ascii_lower(s),
        ) is None,
{
    lemma_aliases_disjoint(ascii_lower(s));
}

proof fn lemma_aliases_disjoint(x: Seq<char>)
    ensures
        Project::CentyDaemon.aliases().contains(x) ==> !Project::Tui.aliases().contains(x)
            && !Project::CentyDaemonTui.aliases().contains(x)
            && !Project::TuiManager.aliases().contains(x),
        Project::Tui.aliases().contains(x) ==> !Project::CentyDaemonTui.aliases().contains(x)
            && !Project::TuiManager.aliases().contains(x),
        Project::CentyDaemonTui.aliases().contains(x) ==> !Project::TuiManager.aliases().contains(
            x,
        ),
{
    reveal_strlit("daemon");
    reveal_strlit("centy-daemon");
    reveal_strlit("centydaemon");
    reveal_strlit("tui");
    reveal_strlit("centy-tui");
    reveal_strlit("centytui");
    reveal_strlit("daemon-tui");
    reveal_strlit("centy-daemon-tui");
    reveal_strlit("centydaemontui");
    reveal_strlit("tui-manager");
    reveal_strlit("tuimanager");
    reveal_strlit("manager");
    let d = Project::CentyDaemon.aliases();
    let t = Project::Tui.aliases();
    let dt = Project::CentyDaemonTui.aliases();
    let m = Project::TuiManager.aliases();
    assert(d.contains(x) ==> x.len() == 6 || x.len() == 12 || (x.len() == 11 && x[0] == 'c'));
    assert(t.contains(x) ==> x.len() == 3 || x.len() == 9 || x.len() == 8);
    assert(dt.contains(x) ==> (x.len() == 10 && x[0] == 'd') || x.len() == 16 || x.len() == 14);
    assert(m.contains(x) ==> (x.len() == 11 && x[0] == 't') || (x.len() == 10 && x[0] == 't')
        || x.len() == 7);
}

} // verus!
