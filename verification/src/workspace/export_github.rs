//! Fail-closed repository-to-GitHub export: neither a model tool call nor a
//! workspace RPC can publish a repository.
use crate::text::owned;
use vstd::prelude::*;

verus! {

/// Text of every refused export.
pub const EXPORT_REMOVED_MESSAGE: &'static str =
    "repository export was removed from this privacy build";

/// What an export would have published, and where.
pub struct ExportGithubParams<'a> {
    pub project_dir: &'a str,
    pub repo_full_name: Option<&'a str>,
    pub remote_url_base: &'a str,
    pub web_url_base: &'a str,
    pub branch: Option<&'a str>,
    pub commit_message: Option<&'a str>,
}

/// Why an export failed.
#[derive(Debug)]
pub struct ExportGithubFailure {
    pub message: String,
}

/// Every export is refused with the removal message; no repository is
/// initialised, committed or pushed.
pub fn run_export<R>(_params: ExportGithubParams<'_>) -> (r: Result<R, ExportGithubFailure>)
    ensures
        r is Err,
        r->Err_0.message@ == EXPORT_REMOVED_MESSAGE@,
{
    Err(ExportGithubFailure { message: owned(EXPORT_REMOVED_MESSAGE) })
}

} // verus!
