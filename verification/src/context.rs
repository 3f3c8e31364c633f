//! The trace context: the identifier pair a span carries and hands across
//! process boundaries, and the fresh identifiers a new root span is given.
//!
//! Identifiers are kept in their wire form: lowercase hexadecimal strings of
//! fixed width, never all zeros, as the propagation header writes them.

use vstd::prelude::*;
use vstd::string::*;

use crate::text::{all_hex_digits, all_zero_digits, is_hex_field, has_nonzero_char};

verus! {

/// The mathematical value of a trace context: the character sequences of its
/// three fields.
#[verifier::ext_equal]
pub struct CtxView {
    pub trace_id: Seq<char>,
    pub span_id: Seq<char>,
    pub trace_flags: Seq<char>,
}

/// A span's identity as it travels on the wire: a trace identifier shared by
/// every span of one logical operation, the identifier of one span within it,
/// and the sampling flags.
pub struct SpanContext {
    pub trace_id: String,
    pub span_id: String,
    pub trace_flags: String,
}

impl View for SpanContext {
    type V = CtxView;

    open spec fn view(&self) -> CtxView {
        CtxView { trace_id: self.trace_id@, span_id: self.span_id@, trace_flags: self.trace_flags@ }
    }
}

/// A well-formed context: a 32-digit trace id and a 16-digit span id, each
/// lowercase hexadecimal and not all zeros, and 2 hexadecimal flag digits.
pub open spec fn ctx_wf(c: CtxView) -> bool {
    &&& c.trace_id.len() == 32
    &&& all_hex_digits(c.trace_id)
    &&& !all_zero_digits(c.trace_id)
    &&& c.span_id.len() == 16
    &&& all_hex_digits(c.span_id)
    &&& !all_zero_digits(c.span_id)
    &&& c.trace_flags.len() == 2
    &&& all_hex_digits(c.trace_flags)
}

pub open spec fn opt_ctx_view(p: Option<SpanContext>) -> Option<CtxView> {
    match p {
        Some(c) => Some(c@),
        None => None,
    }
}

impl SpanContext {
    pub open spec fn wf(&self) -> bool {
        ctx_wf(self@)
    }

    /// Builds a context from its three wire fields, accepting exactly the
    /// well-formed ones.
    pub fn new(trace_id: String, span_id: String, trace_flags: String) -> (r: Option<SpanContext>)
        ensures
            match r {
                Some(c) => ctx_wf(c@) && c.trace_id@ == trace_id@ && c.span_id@ == span_id@
                    && c.trace_flags@ == trace_flags@,
                None => !ctx_wf(
                    CtxView {
                        trace_id: trace_id@,
                        span_id: span_id@,
                        trace_flags: trace_flags@,
                    },
                ),
            },
    {
        if is_hex_field(trace_id.as_str(), 32) && has_nonzero_char(trace_id.as_str())
            && is_hex_field(span_id.as_str(), 16) && has_nonzero_char(span_id.as_str())
            && is_hex_field(trace_flags.as_str(), 2) {
            Some(SpanContext { trace_id, span_id, trace_flags })
        } else {
            None
        }
    }

}

/// Whether a pair of identifier strings may name a fresh root span: the same
/// well-formedness the context fields have.
pub open spec fn ids_wf(trace_id: Seq<char>, span_id: Seq<char>) -> bool {
    &&& trace_id.len() == 32
    &&& all_hex_digits(trace_id)
    &&& !all_zero_digits(trace_id)
    &&& span_id.len() == 16
    &&& all_hex_digits(span_id)
    &&& !all_zero_digits(span_id)
}

/// Fresh identifiers for one span: a trace id used only when the span has no
/// parent, and the span's own id. Drawn at random by the caller; this module
/// checks only their shape.
pub struct FreshIds {
    pub trace_id: String,
    pub span_id: String,
}

impl FreshIds {
    pub open spec fn wf(&self) -> bool {
        ids_wf(self.trace_id@, self.span_id@)
    }

    /// Accepts exactly the well-formed identifier pairs.
    pub fn new(trace_id: String, span_id: String) -> (r: Option<FreshIds>)
        ensures
            match r {
                Some(ids) => ids.wf() && ids.trace_id@ == trace_id@ && ids.span_id@ == span_id@,
                None => !ids_wf(trace_id@, span_id@),
            },
    {
        if is_hex_field(trace_id.as_str(), 32) && has_nonzero_char(trace_id.as_str())
            && is_hex_field(span_id.as_str(), 16) && has_nonzero_char(span_id.as_str()) {
            Some(FreshIds { trace_id, span_id })
        } else {
            None
        }
    }
}

} // verus!
