//! The stages of one install attempt and the action each stage calls for.
//!
//! An attempt goes `Resolving`, `DirectoryPrepared`, `Acquired`, `Extracted`,
//! `PermissionsSet`, `Activated`; a failed action at any stage ends it in
//! `Failed` with that failure. Nothing is retried.
use vstd::prelude::*;

use crate::error::InstallerError;

verus! {

#[derive(Debug, Clone, Copy, PartialEq, Eq, Structural)]
pub enum InstallStage {
    Resolving,
    DirectoryPrepared,
    Acquired,
    Extracted,
    PermissionsSet,
    Activated,
    Failed,
}

/// What the caller performs next.
#[derive(Debug, Clone, Copy, PartialEq, Eq, Structural)]
pub enum InstallAction {
    /// Create the version directory and the directory of activation links.
    PrepareDirectories,
    /// Fetch the archive from its URL into a temporary file.
    Download,
    /// Copy the caller's local archive into a temporary file.
    CopyLocalFile,
    /// Unpack the archive and copy the binary to its permanent home.
    Extract,
    /// Make the installed binary executable.
    SetPermissions,
    /// Point the activation link at the installed binary.
    Activate,
    /// The install succeeded.
    Finish,
    /// The install failed; the failure is in the attempt.
    Stop,
}

/// One install attempt.
#[derive(Debug)]
pub struct InstallAttempt {
    pub stage: InstallStage,
    /// Whether the archive comes from a local file instead of the network.
    pub local: bool,
    /// The failure that ended the attempt, once it is `Failed`.
    pub failure: Option<InstallerError>,
}

/// The stage after a successful action in `stage`.
pub open spec fn next_stage(stage: InstallStage) -> InstallStage {
    match stage {
        InstallStage::Resolving => InstallStage::DirectoryPrepared,
        InstallStage::DirectoryPrepared => InstallStage::Acquired,
        InstallStage::Acquired => InstallStage::Extracted,
        InstallStage::Extracted => InstallStage::PermissionsSet,
        InstallStage::PermissionsSet => InstallStage::Activated,
        InstallStage::Activated => InstallStage::Activated,
        InstallStage::Failed => InstallStage::Failed,
    }
}

/// The action that a stage calls for.
pub open spec fn stage_action(stage: InstallStage, local: bool) -> InstallAction {
    match stage {
        InstallStage::Resolving => InstallAction::PrepareDirectories,
        InstallStage::DirectoryPrepared => if local {
            InstallAction::CopyLocalFile
        } else {
            InstallAction::Download
        },
        InstallStage::Acquired => InstallAction::Extract,
        InstallStage::Extracted => InstallAction::SetPermissions,
        InstallStage::PermissionsSet => InstallAction::Activate,
        InstallStage::Activated => InstallAction::Finish,
        InstallStage::Failed => InstallAction::Stop,
    }
}

/// Whether an attempt has ended.
pub open spec fn is_terminal(stage: InstallStage) -> bool {
    stage == InstallStage::Activated || stage == InstallStage::Failed
}

impl InstallAttempt {
    /// A new attempt, from the network or from a local file.
    pub fn start(local: bool) -> (r: InstallAttempt)
        ensures
            r.stage == InstallStage::Resolving,
            r.local == local,
            r.failure is None,
    {
        InstallAttempt { stage: InstallStage::Resolving, local, failure: None }
    }

    /// The action that the current stage calls for.
    pub fn action(&self) -> (r: InstallAction)
        ensures
            r == stage_action(self.stage, self.local),
    {
        match self.stage {
            InstallStage::Resolving => InstallAction::PrepareDirectories,
            InstallStage::DirectoryPrepared => if self.local {
                InstallAction::CopyLocalFile
            } else {
                InstallAction::Download
            },
            InstallStage::Acquired => InstallAction::Extract,
            InstallStage::Extracted => InstallAction::SetPermissions,
            InstallStage::PermissionsSet => InstallAction::Activate,
            InstallStage::Activated => InstallAction::Finish,
            InstallStage::Failed => InstallAction::Stop,
        }
    }

    /// The attempt after the outcome of the current action: success moves
    /// to the next stage; a failure ends the attempt in `Failed` holding
    /// it. An attempt that has ended stays as it is.
    pub fn advance(self, outcome: Result<(), InstallerError>) -> (r: InstallAttempt)
        ensures
            r.local == self.local,
            is_terminal(self.stage) ==> r.stage == self.stage && r.failure == self.failure,
            !is_terminal(self.stage) && outcome is Ok ==> r.stage == next_stage(self.stage)
                && r.failure is None,
            !is_terminal(self.stage) && outcome is Err ==> r.stage == InstallStage::Failed
                && r.failure == Some(outcome->Err_0),
    {
        match self.stage {
            InstallStage::Activated | InstallStage::Failed => self,
            _ => match outcome {
                Ok(()) => {
                    let stage = match self.stage {
                        InstallStage::Resolving => InstallStage::DirectoryPrepared,
                        InstallStage::DirectoryPrepared => InstallStage::Acquired,
                        InstallStage::Acquired => InstallStage::Extracted,
                        InstallStage::Extracted => InstallStage::PermissionsSet,
                        _ => InstallStage::Activated,
                    };
                    InstallAttempt { stage, local: self.local, failure: None }
                },
                Err(e) => InstallAttempt {
                    stage: InstallStage::Failed,
                    local: self.local,
                    failure: Some(e),
                },
            },
        }
    }
}

} // verus!
