//! The self-updater is not part of the privacy build: no entry point can
//! check, download, install, relaunch or switch update channels. Updating
//! means a fresh source review, rebuild and explicit installation outside the
//! binary.
use vstd::prelude::*;

pub mod auto_update;
pub mod version;
pub mod version_policy;

pub use auto_update::UpdateStatus;
pub use version::{channel_label, channel_name, write_version_cache, UpdateConfig};
pub use version_policy::enforce_version_policy_or_exit;

verus! {

/// The private build contains no callable self-update path.
pub const UPDATER_COMPILED_IN: bool = false;

/// Stable text of every refused update operation.
pub const UPDATER_REMOVED_MESSAGE: &'static str =
    "updating is disabled in this privacy build; install a newly audited source build manually";

/// The error of every refused update operation.
#[derive(Debug, Clone, Copy, PartialEq, Eq, Structural)]
pub struct UpdaterRemovedError;

impl UpdaterRemovedError {
    /// The error's text.
    pub fn to_string(&self) -> (s: String)
        ensures
            s@ == UPDATER_REMOVED_MESSAGE@,
    {
        crate::text::owned(UPDATER_REMOVED_MESSAGE)
    }
}

} // verus!
