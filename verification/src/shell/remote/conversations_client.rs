//! Removed grok.com conversation client.
use std::sync::Arc;
use vstd::prelude::*;

verus! {

/// A conversation as the server would have described it.
#[derive(Debug, Clone, Default)]
pub struct Conversation {
    pub conversation_id: String,
    pub title: String,
    pub starred: bool,
    pub create_time: Option<String>,
    pub modify_time: Option<String>,
    pub workspaces: Vec<Workspace>,
}

/// A workspace reference inside a conversation.
#[derive(Debug, Clone, Default)]
pub struct Workspace {
    pub workspace_id: String,
}

/// A conversation query.
#[derive(Debug, Clone, Default)]
pub struct ConvQuery {
    pub page_size: i64,
    pub page_token: Option<String>,
    pub search_query: Option<String>,
    pub workspace_id: Option<String>,
}

/// A page of conversations.
#[derive(Debug, Clone, Default)]
pub struct ListConversationsPage {
    pub conversations: Vec<Conversation>,
    pub next_page_token: Option<String>,
}

/// A conversation update.
#[derive(Debug, Clone, Default)]
pub struct UpdateConversationBody {
    pub title: Option<String>,
    pub starred: Option<bool>,
}

/// Conversation client errors.
#[derive(Debug)]
pub enum ConvError {
    NoOauth,
    Network(reqwest::Error),
    Http { status: u16 },
    Parse(serde_json::Error),
}

/// A conversation client with no transport.
pub struct ConversationsClient<A> {
    auth: Arc<A>,
}

impl<A> ConversationsClient<A> {
    /// The auth manager held by the client.
    pub closed spec fn auth_view(&self) -> Arc<A> {
        self.auth
    }

    /// The auth manager is kept but never used.
    pub fn new(auth: Arc<A>) -> (c: ConversationsClient<A>)
        ensures
            c.auth_view() == auth,
    {
        ConversationsClient { auth }
    }

    /// Removed: would list conversations.
    pub fn list_conversations(&self, _q: &ConvQuery) -> (res: Result<
        ListConversationsPage,
        ConvError,
    >)
        ensures
            res matches Err(e) && e is NoOauth,
    {
        Err(ConvError::NoOauth)
    }

    /// Removed: would update a conversation.
    pub fn update_conversation(&self, _conversation_id: &str, _body: &UpdateConversationBody) -> (res:
        Result<(), ConvError>)
        ensures
            res matches Err(e) && e is NoOauth,
    {
        Err(ConvError::NoOauth)
    }

    /// Removed: would delete a conversation.
    pub fn soft_delete_conversation(&self, _conversation_id: &str) -> (res: Result<(), ConvError>)
        ensures
            res matches Err(e) && e is NoOauth,
    {
        Err(ConvError::NoOauth)
    }
}

} // verus!
