//! Inert facade for the removed vendor-managed MCP gateway: no catalog is
//! fetched, no tool call is sent, and gateway tools never become active.
use crate::notify::{new_notify, notify_waiters};
use crate::text::{owned, push_decimal, push_str, decimal};
use std::collections::HashSet;
use std::sync::Arc;
use vstd::prelude::*;

verus! {

/// serde_json's `Value`, carried through opaquely.
#[verifier::external_type_specification]
#[verifier::external_body]
pub struct ExJsonValue(serde_json::Value);

/// serde_json's `Clone` for `Value` (a deep copy); nothing is stated of the
/// copy.
pub assume_specification[ <serde_json::Value as Clone>::clone ](v: &serde_json::Value) -> serde_json::Value;

/// The state of the gateway tool catalog cache.
pub enum GatewayToolCatalogCache {
    NotFetched,
    Fetching(u64),
    Ready(GatewayToolCatalog),
}

/// Per-session gateway state.
pub struct ManagedMcpState {
    pub gateway_tools_active: bool,
    pub gateway_tool_epoch: u64,
    pub gateway_tool_cache: GatewayToolCatalogCache,
    pub gateway_tool_fetch_notify: Arc<tokio::sync::Notify>,
    pub gateway_tool_connectors_seen: HashSet<String>,
}

/// The epoch after one more invalidation, wrapping at `u64::MAX`.
pub open spec fn next_epoch(epoch: u64) -> u64 {
    if epoch == u64::MAX {
        0
    } else {
        (epoch + 1) as u64
    }
}

/// `after` is `before` with the gateway disabled once more: inactive, cache
/// emptied, epoch advanced, other fields unchanged.
pub open spec fn disabled_from(before: ManagedMcpState, after: ManagedMcpState) -> bool {
    &&& !after.gateway_tools_active
    &&& after.gateway_tool_epoch == next_epoch(before.gateway_tool_epoch)
    &&& after.gateway_tool_cache is NotFetched
    &&& after.gateway_tool_fetch_notify == before.gateway_tool_fetch_notify
    &&& after.gateway_tool_connectors_seen@ == before.gateway_tool_connectors_seen@
}

impl Default for ManagedMcpState {
    fn default() -> (s: ManagedMcpState)
        ensures
            !s.gateway_tools_active,
            s.gateway_tool_epoch == 0,
            s.gateway_tool_cache is NotFetched,
            s.gateway_tool_connectors_seen@ == Set::<String>::empty(),
    {
        ManagedMcpState {
            gateway_tools_active: false,
            gateway_tool_epoch: 0,
            gateway_tool_cache: GatewayToolCatalogCache::NotFetched,
            gateway_tool_fetch_notify: Arc::new(new_notify()),
            gateway_tool_connectors_seen: HashSet::new(),
        }
    }
}

impl ManagedMcpState {
    /// Enabling is refused: the gateway is disabled once more and the new
    /// epoch is returned.
    pub fn enable_gateway_tools(&mut self) -> (epoch: u64)
        ensures
            disabled_from(*old(self), *final(self)),
            epoch == final(self).gateway_tool_epoch,
    {
        self.disable_gateway_tools();
        self.gateway_tool_epoch
    }

    /// No fetch is ever started; the state is unchanged.
    pub fn start_gateway_tool_fetch(&mut self) -> (epoch: Option<u64>)
        ensures
            epoch is None,
            *final(self) == *old(self),
    {
        None
    }

    /// A fetched catalog is never accepted: the gateway is disabled.
    pub fn complete_gateway_tool_fetch(&mut self, _epoch: u64, _catalog: GatewayToolCatalog) -> (accepted: bool)
        ensures
            !accepted,
            disabled_from(*old(self), *final(self)),
    {
        self.disable_gateway_tools();
        false
    }

    /// A failed fetch disables the gateway.
    pub fn fail_gateway_tool_fetch(&mut self, _epoch: u64)
        ensures
            disabled_from(*old(self), *final(self)),
    {
        self.disable_gateway_tools();
    }

    /// Deactivate gateway tools, invalidate any in-flight fetch by advancing
    /// the epoch, empty the cache and wake waiters.
    pub fn disable_gateway_tools(&mut self)
        ensures
            disabled_from(*old(self), *final(self)),
    {
        self.gateway_tools_active = false;
        self.gateway_tool_epoch = self.gateway_tool_epoch.wrapping_add(1);
        self.gateway_tool_cache = GatewayToolCatalogCache::NotFetched;
        notify_waiters(&self.gateway_tool_fetch_notify);
    }
}

/// A tool call that would have been sent to the gateway.
#[derive(Debug, Clone)]
pub struct GatewayToolCallRequest {
    pub call_id: String,
    pub arguments: serde_json::Value,
}

/// A gateway tool call reply.
#[derive(Debug, Clone)]
pub struct GatewayToolCallResponse {
    pub result: serde_json::Value,
    pub connectors_needing_reauth: Vec<String>,
}

/// A gateway tool catalog.
#[derive(Debug, Clone)]
pub struct GatewayToolCatalog {
    pub tools: Vec<GatewayTool>,
    pub total_tools: u32,
    pub connectors_needing_reauth: Vec<String>,
}

/// One gateway tool.
#[derive(Debug, Clone)]
pub struct GatewayTool {
    pub connector_id: String,
    pub connector_name: String,
    pub tool_id: String,
    pub tool_name: String,
    pub call_id: String,
    pub description: String,
    pub json_schema: serde_json::Value,
}

impl GatewayTool {
    /// `"{connector_id}__{tool_id}"`.
    pub fn qualified_name(&self) -> (res: String)
        ensures
            res@ == self.connector_id@ + "__"@ + self.tool_id@,
    {
        let mut res = owned(self.connector_id.as_str());
        push_str(&mut res, "__");
        push_str(&mut res, self.tool_id.as_str());
        res
    }
}

/// Why a gateway request failed.
#[derive(Debug, Clone)]
pub enum ManagedMcpFetchError {
    Status { status: u16, message: String },
    Transport(String),
    NoAuth,
}

/// Display text of a gateway error.
pub open spec fn fetch_error_text(e: ManagedMcpFetchError) -> Seq<char> {
    match e {
        ManagedMcpFetchError::Status { status, message } => "HTTP "@ + decimal(status as nat)
            + ": "@ + message@,
        ManagedMcpFetchError::Transport(m) => "transport: "@ + m@,
        ManagedMcpFetchError::NoAuth => "no auth token available"@,
    }
}

impl ManagedMcpFetchError {
    /// The error's display text.
    pub fn to_string(&self) -> (res: String)
        ensures
            res@ == fetch_error_text(*self),
    {
        match self {
            ManagedMcpFetchError::Status { status, message } => {
                let mut s = owned("HTTP ");
                push_decimal(&mut s, *status as u64);
                push_str(&mut s, ": ");
                push_str(&mut s, message.as_str());
                s
            },
            ManagedMcpFetchError::Transport(m) => {
                let mut s = owned("transport: ");
                push_str(&mut s, m.as_str());
                s
            },
            ManagedMcpFetchError::NoAuth => owned("no auth token available"),
        }
    }
}

/// Message of the refusal every gateway request gets.
pub const GATEWAY_DISABLED_MESSAGE: &'static str =
    "vendor-managed MCP gateway disabled by privacy build";

/// The refusal every gateway request gets: HTTP 403 with a fixed message.
pub open spec fn is_gateway_refusal(e: ManagedMcpFetchError) -> bool {
    e matches ManagedMcpFetchError::Status { status, message } && status == 403 && message@
        == GATEWAY_DISABLED_MESSAGE@
}

fn disabled<T>() -> (res: Result<T, ManagedMcpFetchError>)
    ensures
        res matches Err(e) && is_gateway_refusal(e),
{
    Err(ManagedMcpFetchError::Status { status: 403, message: owned(GATEWAY_DISABLED_MESSAGE) })
}

/// Removed: would call a gateway tool.
pub fn call_gateway_tool(
    _proxy_base_url: &str,
    _auth_key: &str,
    _call_id: &str,
    _arguments: serde_json::Value,
) -> (res: Result<GatewayToolCallResponse, ManagedMcpFetchError>)
    ensures
        res matches Err(e) && is_gateway_refusal(e),
{
    disabled()
}

/// Removed: would fetch the gateway tool catalog.
pub fn fetch_gateway_tool_catalog(_proxy_base_url: &str, _auth_key: &str) -> (res: Result<
    GatewayToolCatalog,
    ManagedMcpFetchError,
>)
    ensures
        res matches Err(e) && is_gateway_refusal(e),
{
    disabled()
}

/// `url` without its trailing slashes.
pub open spec fn trim_trailing_slashes(url: Seq<char>) -> Seq<char>
    decreases url.len(),
{
    if url.len() > 0 && url.last() == '/' {
        trim_trailing_slashes(url.drop_last())
    } else {
        url
    }
}

/// Drop trailing slashes from a URL.
pub fn normalize_url(url: &str) -> (res: String)
    ensures
        res@ == trim_trailing_slashes(url@),
{
    let chars = crate::text::chars_of(url);
    let mut end: usize = chars.len();
    assert(chars@.take(end as int) =~= url@);
    while end > 0 && chars[end - 1] == '/'
        invariant
            end <= chars@.len(),
            chars@ == url@,
            trim_trailing_slashes(chars@.take(end as int)) == trim_trailing_slashes(url@),
        decreases end,
    {
        assert(chars@.take(end as int).drop_last() =~= chars@.take(end - 1 as int));
        end = end - 1;
    }
    let mut kept: Vec<char> = Vec::new();
    let mut i: usize = 0;
    while i < end
        invariant
            i <= end,
            end <= chars@.len(),
            kept@ == chars@.take(i as int),
        decreases end - i,
    {
        kept.push(chars[i]);
        i = i + 1;
        assert(chars@.take(i as int) =~= chars@.take(i - 1 as int).push(chars@[i - 1]));
    }
    string_result(&kept)
}

fn string_result(chars: &Vec<char>) -> (res: String)
    ensures
        res@ == chars@,
{
    crate::text::string_from_chars(chars)
}


/// Gateway tools are inactive and no catalog is cached or being fetched.
pub open spec fn gateway_inert(s: ManagedMcpState) -> bool {
    !s.gateway_tools_active && s.gateway_tool_cache is NotFetched
}

/// Every refused operation (enable, completed or failed fetch, disable)
/// leaves the gateway inert, whatever state it started from, and moves the
/// epoch on, so a fetch started under the old epoch can never be accepted.
pub proof fn lemma_refusal_invalidates_fetches(before: ManagedMcpState, after: ManagedMcpState)
    requires
        disabled_from(before, after),
    ensures
        gateway_inert(after),
        after.gateway_tool_epoch != before.gateway_tool_epoch,
{
}

/// Inertness is kept by every operation of the state: starting a fetch
/// changes nothing, and every other operation disables once more.
pub proof fn lemma_gateway_stays_inert(before: ManagedMcpState, after: ManagedMcpState)
    requires
        gateway_inert(before),
        after == before || disabled_from(before, after),
    ensures
        gateway_inert(after),
{
}

/// Normalising a URL twice is normalising it once, and a normalised URL does
/// not end with a slash.
pub proof fn lemma_normalize_url_idempotent(url: Seq<char>)
    ensures
        trim_trailing_slashes(trim_trailing_slashes(url)) == trim_trailing_slashes(url),
        trim_trailing_slashes(url).len() == 0 || trim_trailing_slashes(url).last() != '/',
    decreases url.len(),
{
    if url.len() > 0 && url.last() == '/' {
        lemma_normalize_url_idempotent(url.drop_last());
    }
}

} // verus!
