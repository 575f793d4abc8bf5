use centy_installer::error::InstallerError;
use centy_installer::pipeline::{InstallAction, InstallAttempt, InstallStage};

#[test]
fn successful_download_install_visits_every_stage() {
    let mut attempt = InstallAttempt::start(false);
    let mut actions = Vec::new();
    loop {
        let action = attempt.action();
        actions.push(action);
        if action == InstallAction::Finish || action == InstallAction::Stop {
            break;
        }
        attempt = attempt.advance(Ok(()));
    }
    assert_eq!(
        actions,
        vec![
            InstallAction::PrepareDirectories,
            InstallAction::Download,
            InstallAction::Extract,
            InstallAction::SetPermissions,
            InstallAction::Activate,
            InstallAction::Finish,
        ]
    );
    assert_eq!(attempt.stage, InstallStage::Activated);
}

#[test]
fn local_install_copies_instead_of_downloading() {
    let attempt = InstallAttempt::start(true).advance(Ok(()));
    assert_eq!(attempt.stage, InstallStage::DirectoryPrepared);
    assert_eq!(attempt.action(), InstallAction::CopyLocalFile);
}

#[test]
fn failure_is_terminal_and_kept() {
    let attempt = InstallAttempt::start(false)
        .advance(Ok(()))
        .advance(Err(InstallerError::DownloadFailed("HTTP 404: u".to_string())));
    assert_eq!(attempt.stage, InstallStage::Failed);
    assert_eq!(attempt.action(), InstallAction::Stop);
    let attempt = attempt.advance(Ok(()));
    assert_eq!(attempt.stage, InstallStage::Failed);
    assert_eq!(
        attempt.failure,
        Some(InstallerError::DownloadFailed("HTTP 404: u".to_string()))
    );
}

#[test]
fn extraction_failure_stops_before_activation() {
    let attempt = InstallAttempt::start(true)
        .advance(Ok(()))
        .advance(Ok(()))
        .advance(Err(InstallerError::BinaryNotFound("centy-tui not found in archive".to_string())));
    assert_eq!(attempt.action(), InstallAction::Stop);
}
