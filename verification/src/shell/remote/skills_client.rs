//! Removed server-delivered product skills catalog; local skills are
//! discovered elsewhere and remain available.
use std::sync::Arc;
use vstd::prelude::*;

verus! {

/// Meta value that marks the chat product.
pub const CHAT_PRODUCT_META_VALUE: &'static str = "chat";

/// Meta key under which the product is named.
pub const CHAT_PRODUCT_META_KEY: &'static str = "product";

/// Remote skills are not compiled into this build.
pub const REMOTE_SKILLS_COMPILED_IN: bool = false;

/// A bundled skill entry.
#[derive(Debug, Clone, Default)]
pub struct BundledSkill {
    pub index: i32,
    pub name: String,
    pub description: String,
    pub icon: String,
    pub display_name: String,
}

/// Bundled-skill list reply.
#[derive(Debug, Clone, Default)]
pub struct ListBundledSkillsResponse {
    pub skills: Vec<BundledSkill>,
}

/// A user skill entry.
#[derive(Debug, Clone, Default)]
pub struct UserSkill {
    pub name: String,
    pub description: String,
    pub enabled: bool,
    pub id: String,
    pub skill_md_content: Option<String>,
}

/// User-skill list reply.
#[derive(Debug, Clone, Default)]
pub struct ListUserSkillsResponse {
    pub skills: Vec<UserSkill>,
}

/// The product skills catalog.
#[derive(Debug, Clone, Default)]
pub struct ProductSkillsCatalog {
    pub bundled: Vec<BundledSkill>,
    pub user: Vec<UserSkill>,
    pub user_list_failed: bool,
}

/// The empty catalog.
pub open spec fn is_empty_catalog(c: ProductSkillsCatalog) -> bool {
    c.bundled@.len() == 0 && c.user@.len() == 0 && !c.user_list_failed
}

impl ProductSkillsCatalog {
    /// No catalog entry becomes a usable skill.
    pub fn to_skill_infos<S>(&self) -> (res: Vec<S>)
        ensures
            res@.len() == 0,
    {
        Vec::new()
    }
}

/// Skills client errors.
#[derive(Debug)]
pub enum SkillsError {
    NoAuth,
    Network(reqwest::Error),
    Http { status: u16 },
    Parse(serde_json::Error),
}

/// A skills client with no transport.
pub struct SkillsClient<A> {
    auth: Arc<A>,
}

impl<A> SkillsClient<A> {
    /// The auth manager held by the client.
    pub closed spec fn auth_view(&self) -> Arc<A> {
        self.auth
    }

    /// The auth manager is kept but never used.
    pub fn new(auth: Arc<A>) -> (c: SkillsClient<A>)
        ensures
            c.auth_view() == auth,
    {
        SkillsClient { auth }
    }

    /// Removed: would fetch the catalog.
    pub fn try_list_catalog(&self, _locale: &str) -> (res: Result<
        (ProductSkillsCatalog, bool),
        SkillsError,
    >)
        ensures
            res matches Err(e) && e is NoAuth,
    {
        Err(SkillsError::NoAuth)
    }

    /// The catalog is always empty.
    pub fn list_catalog(&self, _locale: &str) -> (res: ProductSkillsCatalog)
        ensures
            is_empty_catalog(res),
    {
        ProductSkillsCatalog { bundled: Vec::new(), user: Vec::new(), user_list_failed: false }
    }
}

} // verus!
