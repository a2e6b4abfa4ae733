//! Removed pull-on-miss cloud session hydration.
use super::client::{BackendClient, BackendError};
use vstd::prelude::*;

verus! {

/// Result of a pull: a hydrated local session, or nothing found.
#[derive(Debug)]
pub enum PullResult<I> {
    Hydrated(I),
    NotFound,
}

/// Nothing is ever found remotely.
pub fn pull_session_to_local<A, I>(_session_id: &str, _client: &BackendClient<A>) -> (res: Result<
    PullResult<I>,
    BackendError,
>)
    ensures
        res matches Ok(r) && r is NotFound,
{
    Ok(PullResult::NotFound)
}

} // verus!
