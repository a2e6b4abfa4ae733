//! Verified core of the privacy build: inert facades for removed upload,
//! telemetry, remote-control and update capabilities, plus the small pieces
//! of local logic that remain (path names, version sanitising, extension
//! blocking, hashing, configuration normalisation).
use vstd::prelude::*;

pub mod bundle;
pub mod changelog;
pub mod embedding;
pub mod fastrace_compat;
pub mod file_utils;
pub mod managed_mcp;
pub mod notify;
pub mod paths;
pub mod shell;
pub mod telemetry;
pub mod text;
pub mod time;
pub mod update;
pub mod workspace;

verus! {

} // verus!
