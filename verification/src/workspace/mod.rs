//! Workspace-side facades of the privacy build: repository export and
//! workspace artifact uploads are removed as a whole.
pub mod export_github;
pub mod upload;
