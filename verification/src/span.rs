//! The span: one timed unit of work, kind-tagged, annotated with string
//! attributes, and ended exactly once. Attributes may only be set on a live
//! span, and ending demands a live span, so a span that verified code has
//! ended can never be touched or ended again.

use vstd::prelude::*;
use vstd::string::*;

use crate::context::{ctx_wf, ids_wf, opt_ctx_view, CtxView, FreshIds, SpanContext};

verus! {

#[derive(Clone, Copy, PartialEq, Eq, Structural, Debug)]
pub enum SpanKind {
    Server,
    Client,
}

/// The mathematical value of a span.
#[verifier::ext_equal]
pub struct SpanView {
    pub name: Seq<char>,
    pub kind: SpanKind,
    pub context: CtxView,
    pub parent: Option<CtxView>,
    pub attributes: Seq<(Seq<char>, Seq<char>)>,
    pub ended: bool,
}

/// The attribute list as character sequences.
pub open spec fn attrs_model(a: Seq<(String, String)>) -> Seq<(Seq<char>, Seq<char>)> {
    Seq::new(a.len(), |i: int| (a[i].0@, a[i].1@))
}

/// One span, owned by the operation that started it.
pub struct Span {
    pub name: String,
    pub kind: SpanKind,
    pub context: SpanContext,
    pub parent: Option<SpanContext>,
    pub attributes: Vec<(String, String)>,
    pub ended: bool,
}

impl View for Span {
    type V = SpanView;

    open spec fn view(&self) -> SpanView {
        SpanView {
            name: self.name@,
            kind: self.kind,
            context: self.context@,
            parent: opt_ctx_view(self.parent),
            attributes: attrs_model(self.attributes@),
            ended: self.ended,
        }
    }
}

/// The context a newly started span gets: under a parent it continues the
/// parent's trace and inherits its flags; as a root it opens a fresh trace
/// with the sampled flag set. Either way the span's own id is the fresh one.
pub open spec fn child_context(
    parent: Option<CtxView>,
    trace_id: Seq<char>,
    span_id: Seq<char>,
) -> CtxView {
    match parent {
        Some(p) => CtxView { trace_id: p.trace_id, span_id, trace_flags: p.trace_flags },
        None => CtxView { trace_id, span_id, trace_flags: "01"@ },
    }
}

/// A span as it is born: named, kinded, parented, without attributes, live.
pub open spec fn spec_start(
    name: Seq<char>,
    kind: SpanKind,
    parent: Option<CtxView>,
    trace_id: Seq<char>,
    span_id: Seq<char>,
) -> SpanView {
    SpanView {
        name,
        kind,
        context: child_context(parent, trace_id, span_id),
        parent,
        attributes: Seq::empty(),
        ended: false,
    }
}

/// A span after one more attribute.
pub open spec fn spec_set_attribute(s: SpanView, key: Seq<char>, value: Seq<char>) -> SpanView {
    SpanView { attributes: s.attributes.push((key, value)), ..s }
}

/// A span after ending: immutable from here on.
pub open spec fn spec_end(s: SpanView) -> SpanView {
    SpanView { ended: true, ..s }
}

/// A started span is well-formed when its parent was and its fresh ids were.
pub proof fn lemma_start_context_wf(
    parent: Option<CtxView>,
    trace_id: Seq<char>,
    span_id: Seq<char>,
)
    requires
        ids_wf(trace_id, span_id),
        parent matches Some(p) ==> ctx_wf(p),
    ensures
        ctx_wf(child_context(parent, trace_id, span_id)),
{
    reveal_strlit("01");
    let c = child_context(parent, trace_id, span_id);
    assert(c.trace_flags.len() == 2 && crate::text::all_hex_digits(c.trace_flags)) by {
        match parent {
            Some(p) => {},
            None => {
                assert(c.trace_flags == "01"@);
                assert(c.trace_flags[0] == '0' && c.trace_flags[1] == '1');
            },
        }
    }
}

impl Span {
    /// Starts a span. The fresh ids are consumed: each pair names one span.
    pub fn start(name: String, kind: SpanKind, parent: Option<SpanContext>, ids: FreshIds) -> (s:
        Span)
        requires
            ids.wf(),
        ensures
            s@ == spec_start(name@, kind, opt_ctx_view(parent), ids.trace_id@, ids.span_id@),
    {
        let context = match &parent {
            Some(p) => SpanContext {
                trace_id: p.trace_id.clone(),
                span_id: ids.span_id,
                trace_flags: p.trace_flags.clone(),
            },
            None => SpanContext {
                trace_id: ids.trace_id,
                span_id: ids.span_id,
                trace_flags: "01".to_owned(),
            },
        };
        let s = Span { name, kind, context, parent, attributes: Vec::new(), ended: false };
        proof {
            assert(s@ =~= spec_start(
                name@,
                kind,
                opt_ctx_view(s.parent),
                ids.trace_id@,
                ids.span_id@,
            ));
        }
        s
    }

    /// Sets one attribute on a live span.
    pub fn set_attribute(&mut self, key: &str, value: String)
        requires
            !old(self)@.ended,
        ensures
            final(self)@ == spec_set_attribute(old(self)@, key@, value@),
    {
        let ghost k = key@;
        let ghost v = value@;
        self.attributes.push((key.to_owned(), value));
        proof {
            assert(self@.attributes =~= old(self)@.attributes.push((k, v)));
            assert(self@ =~= spec_set_attribute(old(self)@, k, v));
        }
    }

    /// Ends a live span, exactly once: an ended span cannot be ended again.
    pub fn end(&mut self)
        requires
            !old(self)@.ended,
        ensures
            final(self)@ == spec_end(old(self)@),
    {
        self.ended = true;
        proof {
            assert(self@ =~= spec_end(old(self)@));
        }
    }
}

} // verus!
