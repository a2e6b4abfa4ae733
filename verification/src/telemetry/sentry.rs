//! No-network crash-report facade.
use vstd::prelude::*;

verus! {

/// Crash-reporter settings.
pub struct Config {
    pub client: &'static str,
    pub client_version: &'static str,
    pub release: &'static str,
    pub disabled: bool,
}

/// Guard of the local-only reporter.
pub struct ClientInitGuard;

/// Nothing is initialized, whatever the settings.
pub fn init(_config: Config) -> (g: ClientInitGuard)
    ensures
        g == ClientInitGuard,
{
    ClientInitGuard
}

/// Nothing to flush.
pub fn flush_on_shutdown() {
}

} // verus!
