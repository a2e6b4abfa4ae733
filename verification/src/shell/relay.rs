//! Inert facade for the removed WebSocket relay: no configuration can be
//! built, so no connection is ever attempted.
use vstd::prelude::*;

verus! {

/// Marker retained for source compatibility; never constructed from a
/// session.
#[derive(Clone, Copy, Debug, PartialEq, Eq, Structural)]
pub struct RelayConfig;

impl RelayConfig {
    /// Relay/cloud control is compiled out: there is never a configuration.
    pub fn for_session<S, C, A>(
        _session: &S,
        _ctx: &C,
        _alpha_test_key: Option<String>,
        _auth_manager: Option<A>,
    ) -> (res: Option<RelayConfig>)
        ensures
            res is None,
    {
        None
    }
}

} // verus!
