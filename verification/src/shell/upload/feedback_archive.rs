//! Removed feedback/session archive builder.
use vstd::prelude::*;

verus! {

/// Size caps of a feedback archive.
#[derive(Debug, Clone, Copy, PartialEq, Eq, Structural)]
pub struct ArchiveCaps {
    pub archive_bytes: u64,
    pub file_bytes: u64,
}

/// Caps of the feedback archive: nothing may be archived.
pub fn feedback_archive_caps() -> (c: ArchiveCaps)
    ensures
        c.archive_bytes == 0 && c.file_bytes == 0,
{
    ArchiveCaps { archive_bytes: 0, file_bytes: 0 }
}

/// Archive errors.
#[derive(Debug, Clone, Copy, PartialEq, Eq, Structural)]
pub enum ArchiveError {
    Empty,
}

/// No session archive is ever built.
pub fn build_session_archive(_session_dir: &str, _session_id: &str) -> (res: Result<
    Vec<u8>,
    ArchiveError,
>)
    ensures
        res matches Err(e) && e == ArchiveError::Empty,
{
    Err(ArchiveError::Empty)
}

} // verus!
