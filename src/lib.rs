//! Installer library for the Centy companion tools: version strings, the
//! project registry, the on-disk layout of installed versions, release
//! metadata selection and the decisions of the install pipeline.
pub mod error;
pub mod text;
pub mod version;
pub mod project;
pub mod paths;
pub mod release;
pub mod installer;
pub mod listing;
pub mod search;
pub mod pipeline;

pub use error::InstallerError;
pub use installer::InstallerConfig;
pub use paths::InstallPaths;
pub use project::Project;
pub use version::Version;
