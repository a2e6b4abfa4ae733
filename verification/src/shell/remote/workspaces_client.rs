//! Removed grok.com workspace client.
use std::sync::Arc;
use vstd::prelude::*;

verus! {

/// A workspace as the server would have described it.
#[derive(Debug, Clone, Default)]
pub struct Workspace {
    pub workspace_id: String,
    pub name: String,
    pub create_time: Option<String>,
    pub kind: Option<String>,
}

/// A workspace query.
#[derive(Debug, Clone, Default)]
pub struct WsQuery {
    pub page_size: i64,
    pub page_token: Option<String>,
    pub query: Option<String>,
    pub kind: Option<String>,
}

/// A page of workspaces.
#[derive(Debug, Clone, Default)]
pub struct ListWorkspacesPage {
    pub workspaces: Vec<Workspace>,
    pub next_page_token: Option<String>,
}

/// Workspace client errors.
#[derive(Debug)]
pub enum WsError {
    NoOauth,
    Network(reqwest::Error),
    Http { status: u16 },
    Parse(serde_json::Error),
}

/// A workspace client with no transport.
pub struct WorkspacesClient<A> {
    auth: Arc<A>,
}

impl<A> WorkspacesClient<A> {
    /// The auth manager held by the client.
    pub closed spec fn auth_view(&self) -> Arc<A> {
        self.auth
    }

    /// The auth manager is kept but never used.
    pub fn new(auth: Arc<A>) -> (c: WorkspacesClient<A>)
        ensures
            c.auth_view() == auth,
    {
        WorkspacesClient { auth }
    }

    /// Removed: would list workspaces.
    pub fn list_workspaces(&self, _q: &WsQuery) -> (res: Result<ListWorkspacesPage, WsError>)
        ensures
            res matches Err(e) && e is NoOauth,
    {
        Err(WsError::NoOauth)
    }
}

} // verus!
