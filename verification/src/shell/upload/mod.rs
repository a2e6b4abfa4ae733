//! No-upload trace, turn and archive facades.
pub mod feedback_archive;
pub mod gcs;
pub mod trace;
pub mod turn;
