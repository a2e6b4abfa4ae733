//! Facades for removed cloud backends: sandboxes, chat-mode and skill
//! catalogs, conversations, workspaces, session sync and settings. Every
//! request fails or yields nothing, before any network activity.
use vstd::prelude::*;

pub mod agent;
pub mod chat_models_client;
pub mod client;
pub mod conversations_client;
pub mod pull;
pub mod skills_client;
pub mod sync;
pub mod workspaces_client;

verus! {

/// reqwest's error type, carried opaquely inside the removed clients' errors.
#[verifier::external_type_specification]
#[verifier::external_body]
pub struct ExReqwestError(reqwest::Error);

/// serde_json's error type, carried opaquely inside the removed clients'
/// errors.
#[verifier::external_type_specification]
#[verifier::external_body]
pub struct ExJsonError(serde_json::Error);

/// std's I/O error type, carried opaquely.
#[verifier::external_type_specification]
#[verifier::external_body]
pub struct ExIoError(std::io::Error);

} // verus!
