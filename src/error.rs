//! The failures that the installer reports.
use vstd::prelude::*;

use crate::text::cat;

verus! {

/// A failure of an installer operation; each variant carries a message.
#[derive(Debug, Clone, PartialEq, Eq)]
pub enum InstallerError {
    /// No home directory could be determined.
    HomeDirNotFound,
    /// A filesystem operation failed.
    Io(String),
    /// A request to a remote endpoint failed in transport.
    Http(String),
    /// A metadata body could not be decoded.
    Json(String),
    /// A version string could not be parsed; carries the input text.
    InvalidVersion(String),
    /// An unknown project alias, or a repository that does not exist.
    ProjectNotFound(String),
    /// No matching release, or the version to remove is not installed.
    VersionNotFound(String),
    /// The binary is missing from an archive or from the install tree.
    BinaryNotFound(String),
    /// A download answered with a failure status or broke off.
    DownloadFailed(String),
    /// An archive could not be recognised or unpacked.
    ExtractFailed(String),
    /// A generic failure while installing or running a binary.
    InstallFailed(String),
}

impl InstallerError {
    /// The text shown to a user for this failure.
    pub open spec fn spec_message(&self) -> Seq<char> {
        match self {
            InstallerError::HomeDirNotFound => "Failed to determine home directory"@,
            InstallerError::Io(m) => "IO error: "@ + m@,
            InstallerError::Http(m) => "HTTP error: "@ + m@,
            InstallerError::Json(m) => "JSON error: "@ + m@,
            InstallerError::InvalidVersion(m) => "Invalid version format: "@ + m@,
            InstallerError::ProjectNotFound(m) => "Project not found: "@ + m@,
            InstallerError::VersionNotFound(m) => "Version not found: "@ + m@,
            InstallerError::BinaryNotFound(m) => "Binary not found: "@ + m@,
            InstallerError::DownloadFailed(m) => "Download failed: "@ + m@,
            InstallerError::ExtractFailed(m) => "Extraction failed: "@ + m@,
            InstallerError::InstallFailed(m) => "Installation failed: "@ + m@,
        }
    }

    /// The text shown to a user for this failure.
    pub fn message(&self) -> (r: String)
        ensures
            r@ == self.spec_message(),
    {
        match self {
            InstallerError::HomeDirNotFound => "Failed to determine home directory".to_owned(),
            InstallerError::Io(m) => cat("IO error: ", m.as_str()),
            InstallerError::Http(m) => cat("HTTP error: ", m.as_str()),
            InstallerError::Json(m) => cat("JSON error: ", m.as_str()),
            InstallerError::InvalidVersion(m) => cat("Invalid version format: ", m.as_str()),
            InstallerError::ProjectNotFound(m) => cat("Project not found: ", m.as_str()),
            InstallerError::VersionNotFound(m) => cat("Version not found: ", m.as_str()),
            InstallerError::BinaryNotFound(m) => cat("Binary not found: ", m.as_str()),
            InstallerError::DownloadFailed(m) => cat("Download failed: ", m.as_str()),
            InstallerError::ExtractFailed(m) => cat("Extraction failed: ", m.as_str()),
            InstallerError::InstallFailed(m) => cat("Installation failed: ", m.as_str()),
        }
    }
}

} // verus!
