//! Compile-time privacy invariants for the no-upload/no-cloud-control build.
//! None of these values has an environment, config, CLI, managed or remote
//! override.
use crate::text::{owned, starts_with, str_eq};
use vstd::prelude::*;

verus! {

/// Marker used by audits and the installed launcher's binary check.
pub const PRIVACY_BUILD: bool = true;

/// Remote settings, managed policy sync, campaigns and remote version policy
/// are not accepted by this build.
pub const REMOTE_CONTROL_COMPILED_IN: bool = false;

/// Repository/session/trace/telemetry/feedback/share uploads are not
/// accepted by this build.
pub const PASSIVE_UPLOADS_COMPILED_IN: bool = false;

/// Stable message returned by disabled high-level operations.
pub const REMOVED_MESSAGE: &'static str = "disabled by the no-upload/no-cloud-control privacy build";

/// The error of every disabled high-level operation.
#[derive(Debug, Clone, Copy, PartialEq, Eq, Structural)]
pub struct PrivacyRemovedError;

impl PrivacyRemovedError {
    /// The error's text.
    pub fn to_string(&self) -> (s: String)
        ensures
            s@ == REMOVED_MESSAGE@,
    {
        owned(REMOVED_MESSAGE)
    }
}

/// The ACP extension methods that upload local/session data or expose
/// remote workspace control.
pub open spec fn blocked_extension(method: Seq<char>) -> bool {
    ||| "x.ai/cloud/"@.is_prefix_of(method)
    ||| "x.ai/bundle/"@.is_prefix_of(method)
    ||| "x.ai/review"@.is_prefix_of(method)
    ||| method == "x.ai/workspaces/list"@
    ||| method == "x.ai/feedback"@
    ||| method == "x.ai/feedback/dismiss"@
    ||| method == "x.ai/feedback/upload-trace"@
    ||| method == "x.ai/btw"@
    ||| method == "x.ai/share_session"@
    ||| method == "x.ai/privacy/setCodingDataRetention"@
    ||| method == "x.ai/consent/record"@
    ||| method == "x.ai/rollout/survey"@
}

/// Whether an ACP extension method belongs to a blocked family. One
/// exhaustive choke point, so no dispatcher branch can re-arm a family.
pub fn blocks_extension(method: &str) -> (res: bool)
    ensures
        res == blocked_extension(method@),
{
    starts_with(method, "x.ai/cloud/") || starts_with(method, "x.ai/bundle/") || starts_with(
        method,
        "x.ai/review",
    ) || str_eq(method, "x.ai/workspaces/list") || str_eq(method, "x.ai/feedback") || str_eq(
        method,
        "x.ai/feedback/dismiss",
    ) || str_eq(method, "x.ai/feedback/upload-trace") || str_eq(method, "x.ai/btw") || str_eq(
        method,
        "x.ai/share_session",
    ) || str_eq(method, "x.ai/privacy/setCodingDataRetention") || str_eq(
        method,
        "x.ai/consent/record",
    ) || str_eq(method, "x.ai/rollout/survey")
}

} // verus!
