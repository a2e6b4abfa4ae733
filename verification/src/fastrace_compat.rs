//! Trace-context helpers over `fastrace`. Trace export itself is removed: no
//! reporter, client, channel or worker exists. What remains reads the current
//! local trace context, renders it as a W3C `traceparent`, and opens spans
//! from an incoming `traceparent`.
use crate::text::{hex_digit, owned};
use fastrace::collector::{SpanContext, SpanId, TraceId};
use fastrace::Span;
use vstd::prelude::*;

verus! {

/// Text of the refused trace export.
pub const TRACE_EXPORT_DISABLED_MESSAGE: &'static str =
    "OTLP trace export is removed in the privacy build";

/// The error of the refused trace export.
#[derive(Debug, Clone, Copy, PartialEq, Eq, Structural)]
pub struct TraceExportDisabled;

impl TraceExportDisabled {
    /// The error's text.
    pub fn to_string(&self) -> (s: String)
        ensures
            s@ == TRACE_EXPORT_DISABLED_MESSAGE@,
    {
        owned(TRACE_EXPORT_DISABLED_MESSAGE)
    }
}

/// Compatibility entry point: no exporter is ever installed.
pub fn init_fastrace<I>(_endpoint: String, _name: String, _resource_attributes: I) -> (r: Result<
    (),
    TraceExportDisabled,
>)
    ensures
        r == Err::<(), TraceExportDisabled>(TraceExportDisabled),
{
    Err(TraceExportDisabled)
}

/// A trace context as plain values: the trace id, the parent span id and
/// whether the trace is sampled.
#[derive(Clone, Copy, Debug, PartialEq, Eq, Structural)]
pub struct SpanCtx {
    pub trace_id: u128,
    pub span_id: u64,
    pub sampled: bool,
}

/// `fastrace::Span`, opaque to verification.
#[verifier::external_type_specification]
#[verifier::external_body]
pub struct ExSpan(fastrace::Span);

/// `n` as exactly `width` lower-case hex digits (its low digits when it does
/// not fit).
pub open spec fn hex_fixed(n: nat, width: nat) -> Seq<char>
    decreases width,
{
    if width == 0 {
        Seq::empty()
    } else {
        hex_fixed(n / 16, (width - 1) as nat).push(hex_digit(n % 16))
    }
}

/// The W3C `traceparent` header of a context: version `00`, 32 hex digits of
/// trace id, 16 of span id, and the flags `01` (sampled) or `00`.
pub open spec fn traceparent_text(c: SpanCtx) -> Seq<char> {
    "00-"@ + hex_fixed(c.trace_id as nat, 32) + "-"@ + hex_fixed(c.span_id as nat, 16) + (if c.sampled {
        "-01"@
    } else {
        "-00"@
    })
}

/// What `fastrace::collector::SpanContext::decode_w3c_traceparent` makes of a
/// header: trace id, span id and sampled flag, or nothing.
pub uninterp spec fn traceparent_decoded(traceparent: Seq<char>) -> Option<(u128, u64, bool)>;

/// Calls `SpanContext::current_local_parent`. Nothing is stated of the result:
/// it depends on the spans the current thread has entered.
#[verifier::external_body]
fn current_local_parent() -> Option<SpanCtx> {
    match SpanContext::current_local_parent() {
        Some(c) => Some(SpanCtx { trace_id: c.trace_id.0, span_id: c.span_id.0, sampled: c.sampled }),
        None => None,
    }
}

/// Calls `SpanContext::encode_w3c_traceparent`, whose source formats
/// `"00-{:032x}-{:016x}-{:02x}"` over trace id, span id and the sampled flag.
#[verifier::external_body]
fn encode_traceparent(c: SpanCtx) -> (s: String)
    ensures
        s@ == traceparent_text(c),
{
    SpanContext { trace_id: TraceId(c.trace_id), span_id: SpanId(c.span_id), sampled: c.sampled }.encode_w3c_traceparent()
}

/// Calls `SpanContext::random`: a random trace id, span id 0, sampled. Of the
/// trace id nothing is stated.
#[verifier::external_body]
fn random_span_ctx() -> (c: SpanCtx)
    ensures
        c.span_id == 0,
        c.sampled,
{
    let c = SpanContext::random();
    SpanCtx { trace_id: c.trace_id.0, span_id: c.span_id.0, sampled: c.sampled }
}

/// Calls `SpanContext::decode_w3c_traceparent`. The result is named; its
/// source returns a context only with a non-zero trace id and span id.
#[verifier::external_body]
fn decode_traceparent(traceparent: &str) -> (r: Option<(u128, u64, bool)>)
    ensures
        r == traceparent_decoded(traceparent@),
        r matches Some(d) ==> d.0 != 0 && d.1 != 0,
{
    match SpanContext::decode_w3c_traceparent(traceparent) {
        Some(c) => Some((c.trace_id.0, c.span_id.0, c.sampled)),
        None => None,
    }
}

/// Calls `Span::root` with the given parent context. The span is opaque.
/// This library opens a root span only to continue a remote trace, so the
/// parent must name one: a non-zero trace id and a non-zero parent span id
/// (a fresh random context has span id 0 and is refused here).
#[verifier::external_body]
fn root_span(name: String, parent: SpanCtx) -> Span
    requires
        parent.trace_id != 0,
        parent.span_id != 0,
{
    Span::root(name, SpanContext { trace_id: TraceId(parent.trace_id), span_id: SpanId(parent.span_id), sampled: parent.sampled })
}

/// Calls `Span::enter_with_local_parent`. The span is opaque.
#[verifier::external_body]
fn local_child_span(name: String) -> Span {
    Span::enter_with_local_parent(name)
}

/// The `traceparent` of a local parent context, if there is one.
pub fn traceparent_of(parent: Option<SpanCtx>) -> (r: Option<String>)
    ensures
        parent is None ==> r is None,
        parent is Some ==> r is Some && r->0@ == traceparent_text(parent->0),
{
    match parent {
        Some(c) => Some(encode_traceparent(c)),
        None => None,
    }
}

/// The current thread's trace context as a `traceparent` header, if any.
pub fn current_trace_id() -> (r: Option<String>)
    ensures
        r is Some ==> exists|c: SpanCtx| r->0@ == traceparent_text(c),
{
    let parent = current_local_parent();
    let r = traceparent_of(parent);
    proof {
        if r is Some {
            assert(r->0@ == traceparent_text(parent->0));
        }
    }
    r
}

/// The given local parent context, or a fresh random one (span id 0,
/// sampled) when there is none.
pub fn span_ctx_or_random(parent: Option<SpanCtx>) -> (c: SpanCtx)
    ensures
        parent is Some ==> c == parent->0,
        parent is None ==> c.span_id == 0 && c.sampled,
{
    match parent {
        Some(p) => p,
        None => random_span_ctx(),
    }
}

/// The current thread's trace context, or a fresh random one.
pub fn local_or_random_span_ctx() -> (c: SpanCtx) {
    span_ctx_or_random(current_local_parent())
}

/// The parent context an incoming `traceparent` names, if it decodes.
pub fn span_parent_for(traceparent: &str) -> (r: Option<SpanCtx>)
    ensures
        traceparent_decoded(traceparent@) is None ==> r is None,
        traceparent_decoded(traceparent@) matches Some(d) ==> r == Some(
            SpanCtx { trace_id: d.0, span_id: d.1, sampled: d.2 },
        ),
        r matches Some(c) ==> c.trace_id != 0 && c.span_id != 0,
{
    match decode_traceparent(traceparent) {
        Some(d) => Some(SpanCtx { trace_id: d.0, span_id: d.1, sampled: d.2 }),
        None => None,
    }
}

/// A root span continuing the trace an incoming `traceparent` names, or a
/// child of the current local span when the header does not decode (see
/// `span_parent_for` for which).
pub fn enter_span_with_traceparent(name: String, traceparent: &str) -> Span {
    match span_parent_for(traceparent) {
        Some(parent) => root_span(name, parent),
        None => local_child_span(name),
    }
}

/// Marker for the HTTP middleware that adds the current `traceparent` to
/// outgoing requests.
#[derive(Clone, Copy, Debug, PartialEq, Eq, Structural)]
pub struct TraceparentMiddleware;

} // verus!
