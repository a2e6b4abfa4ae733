//! Removed server-delivered chat-mode catalog.
use std::sync::Arc;
use vstd::prelude::*;

verus! {

/// A chat mode as the server would have described it.
#[derive(Debug, Clone, Default)]
pub struct Mode {
    pub id: String,
    pub title: String,
    pub description: String,
    pub badge_text: Option<String>,
    pub availability: ModeAvailability,
    pub icon_hint: String,
    pub tags: Vec<String>,
}

impl Mode {
    /// No server-delivered mode is available.
    pub fn is_available(&self) -> (res: bool)
        ensures
            !res,
    {
        false
    }
}

/// Availability descriptors, kept as raw JSON.
#[derive(Debug, Clone, Default)]
pub struct ModeAvailability {
    pub available: Option<serde_json::Value>,
    pub unavailable: Option<serde_json::Value>,
    pub requires_upgrade: Option<serde_json::Value>,
    pub coming_soon: Option<serde_json::Value>,
}

/// A chat-mode list.
#[derive(Debug, Clone, Default)]
pub struct ListModesResponse {
    pub modes: Vec<Mode>,
    pub default_mode_id: String,
}

/// Chat-mode catalog errors.
#[derive(Debug)]
pub enum ChatModelsError {
    NoAuth,
    Timeout,
    Network(reqwest::Error),
    Http { status: u16 },
    Parse(serde_json::Error),
}

/// A catalog client with no transport.
pub struct ChatModelsClient<A> {
    auth: Arc<A>,
}

impl<A> ChatModelsClient<A> {
    /// The auth manager held by the client.
    pub closed spec fn auth_view(&self) -> Arc<A> {
        self.auth
    }

    /// The auth manager is kept but never used.
    pub fn new(auth: Arc<A>) -> (c: ChatModelsClient<A>)
        ensures
            c.auth_view() == auth,
    {
        ChatModelsClient { auth }
    }

    /// The catalog is never fetched.
    pub fn list_modes(&self, _locale: &str) -> (res: Result<ListModesResponse, ChatModelsError>)
        ensures
            res matches Err(e) && e is NoAuth,
    {
        Err(ChatModelsError::NoAuth)
    }
}

} // verus!
