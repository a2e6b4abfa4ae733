//! Local bundle helpers: server bundle payloads are never parsed,
//! extracted, installed or pruned, and no file counts as server-managed.
use crate::paths::{join_relative, joined};
use vstd::prelude::*;

verus! {

/// Directory name under the Grok home where bundles would have lived.
pub const BUNDLED_ROOT_DIR: &'static str = "bundled-disabled";

/// The (unused) bundle root under a given Grok home.
pub fn bundled_root(grok_home: &str) -> (res: String)
    ensures
        res@ == joined(grok_home@, BUNDLED_ROOT_DIR@),
{
    proof { reveal_strlit("bundled-disabled"); }
    join_relative(grok_home, BUNDLED_ROOT_DIR)
}

/// No file is ever treated as server-managed.
pub fn is_managed_bundle_file(_root: &str, _relative_path: &str) -> (res: bool)
    ensures
        !res,
{
    false
}

} // verus!
