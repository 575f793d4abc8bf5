use centy_installer::error::InstallerError;
use centy_installer::project::{parse_project, Project};

#[test]
fn every_alias_resolves_in_any_case() {
    let table = [
        (Project::CentyDaemon, ["daemon", "centy-daemon", "centydaemon"]),
        (Project::Tui, ["tui", "centy-tui", "centytui"]),
        (Project::CentyDaemonTui, ["daemon-tui", "centy-daemon-tui", "centydaemontui"]),
        (Project::TuiManager, ["tui-manager", "tuimanager", "manager"]),
    ];
    for (project, aliases) in table.iter() {
        for alias in aliases.iter() {
            assert_eq!(Project::parse(alias), Some(*project));
            assert_eq!(Project::parse(&alias.to_uppercase()), Some(*project));
        }
    }
    assert_eq!(Project::parse("TuI"), Some(Project::Tui));
    assert_eq!(Project::parse("Centy-Daemon"), Some(Project::CentyDaemon));
}

#[test]
fn unknown_aliases_resolve_to_nothing() {
    for text in ["", "centy", "tui ", "daemon_tui", "tuim", "x"] {
        assert_eq!(Project::parse(text), None);
    }
}

#[test]
fn parse_lowered_is_exact() {
    assert_eq!(Project::parse_lowered("manager"), Some(Project::TuiManager));
    assert_eq!(Project::parse_lowered("MANAGER"), None);
}

#[test]
fn unknown_project_is_an_error_with_the_input() {
    assert_eq!(
        parse_project("Foo"),
        Err(InstallerError::ProjectNotFound("Foo".to_string()))
    );
    assert_eq!(parse_project("DAEMON"), Ok(Project::CentyDaemon));
}

#[test]
fn project_strings() {
    assert_eq!(Project::Tui.name(), "centy-tui");
    assert_eq!(Project::Tui.display_name(), "Centy TUI");
    assert_eq!(Project::Tui.binary_name(), "centy-tui");
    assert_eq!(Project::Tui.repo_name(), "centy-tui");
    assert_eq!(Project::TuiManager.display_name(), "TUI Manager");
    assert_eq!(Project::CentyDaemonTui.name(), "centy-daemon-tui");
    assert_eq!(Project::CentyDaemon.repo_name(), "centy-daemon");
}

#[test]
fn all_projects_in_declaration_order() {
    assert_eq!(
        Project::all(),
        vec![Project::CentyDaemon, Project::Tui, Project::CentyDaemonTui, Project::TuiManager]
    );
}

#[test]
fn from_str_uses_aliases() {
    let p: Project = "Daemon-TUI".parse().unwrap();
    assert_eq!(p, Project::CentyDaemonTui);
    let e = "nope".parse::<Project>().unwrap_err();
    assert_eq!(e, "Unknown project: nope");
}

#[test]
fn parse_agrees_with_parse_of_lowercase() {
    for text in ["TUI", "Tui-Manager", "CENTYDAEMONTUI", "ManaGer", "Ünknown", "TUİ", "daemon"] {
        assert_eq!(Project::parse(text), Project::parse(&text.to_lowercase()));
    }
}
