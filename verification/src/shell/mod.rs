//! The interactive shell's facades for removed cloud, upload and remote
//! control capabilities, and its remaining local logic.
pub mod extensions;
pub mod feedback_client;
pub mod heap_profile;
pub mod managed_config;
pub mod privacy_build;
pub mod relay;
pub mod relay_sync;
pub mod remote;
pub mod rollout;
pub mod session_registry_client;
pub mod signals;
pub mod upload;
