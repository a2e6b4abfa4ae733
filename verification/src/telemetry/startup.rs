//! Startup labels.
use vstd::prelude::*;

verus! {

/// How the user is authenticated, for local startup labeling.
#[derive(Debug, Clone, Copy, PartialEq, Eq, Structural)]
pub enum AuthMode {
    Deployment,
    Personal,
}

} // verus!
