//! Remote version policy is not part of the privacy build.
use vstd::prelude::*;

verus! {

/// Deliberate no-op: neither a server nor managed configuration may remotely
/// expire, downgrade, or kill-switch this binary.
pub fn enforce_version_policy_or_exit() {
}

} // verus!
