//! The rollout-survey extension method is disabled.
use super::extensions::{acp_internal_error_data, removed_extension_error};
use super::privacy_build::REMOVED_MESSAGE;
use vstd::prelude::*;

verus! {

/// The rollout-survey method is refused, whatever the request, with the
/// internal error that carries the removal message.
pub fn handle<G, R, T>(_agent: &G, _args: &R) -> (r: Result<T, agent_client_protocol::Error>)
    ensures
        r == Err::<T, agent_client_protocol::Error>(acp_internal_error_data(REMOVED_MESSAGE@)),
{
    Err(removed_extension_error())
}

} // verus!
