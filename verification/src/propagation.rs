//! Context propagation over the carrier: the single text header that carries
//! a trace across one hop, in the interoperable form
//! `00-<trace id>-<parent span id>-<flags>`, and its inject and extract
//! operations. A malformed or missing header extracts to nothing, never to an
//! error, so the receiving side degrades to a fresh root.

use vstd::prelude::*;
use vstd::string::*;

use crate::carrier::{lookup, Carrier};
use crate::context::{ctx_wf, CtxView, SpanContext};
use crate::text::{
    all_hex_digits, all_zero_digits, has_nonzero_char, is_hex_field,
};

verus! {

/// The name of the propagation header.
pub open spec fn traceparent_key() -> Seq<char> {
    "traceparent"@
}

/// The header value carrying a context: version `00`, then the three fields,
/// dash-separated.
pub open spec fn traceparent_value(c: CtxView) -> Seq<char> {
    "00-"@ + c.trace_id + "-"@ + c.span_id + "-"@ + c.trace_flags
}

/// The context a header value parses to, if it is well-formed: 55 characters,
/// version `00`, dashes in place, fields lowercase hexadecimal, neither
/// identifier all zeros.
pub open spec fn parse_traceparent(v: Seq<char>) -> Option<CtxView> {
    if v.len() == 55 && v[0] == '0' && v[1] == '0' && v[2] == '-' && v[35] == '-' && v[52] == '-' {
        let c = CtxView {
            trace_id: v.subrange(3, 35),
            span_id: v.subrange(36, 52),
            trace_flags: v.subrange(53, 55),
        };
        if ctx_wf(c) {
            Some(c)
        } else {
            None
        }
    } else {
        None
    }
}

/// What a carrier's headers say the parent context is: the first
/// `traceparent` entry, parsed; nothing when absent or malformed.
pub open spec fn extract_model(entries: Seq<(Seq<char>, Seq<char>)>) -> Option<CtxView> {
    match lookup(entries, traceparent_key()) {
        None => None,
        Some(v) => parse_traceparent(v),
    }
}

/// A carrier after a context was injected: the propagation header put in
/// front, every other entry untouched.
pub open spec fn spec_inject(entries: Seq<(Seq<char>, Seq<char>)>, c: CtxView) -> Seq<
    (Seq<char>, Seq<char>),
> {
    seq![(traceparent_key(), traceparent_value(c))] + entries
}

/// Renders a context as the propagation header value.
pub fn format_traceparent(c: &SpanContext) -> (r: String)
    ensures
        r@ == traceparent_value(c@),
{
    let mut s: String = "00-".to_owned();
    s.append(c.trace_id.as_str());
    s.append("-");
    s.append(c.span_id.as_str());
    s.append("-");
    s.append(c.trace_flags.as_str());
    s
}

/// Parses a propagation header value, accepting exactly the well-formed ones.
pub fn parse_traceparent_str(v: &str) -> (r: Option<SpanContext>)
    ensures
        match r {
            Some(c) => parse_traceparent(v@) == Some(c@) && ctx_wf(c@),
            None => parse_traceparent(v@) is None,
        },
{
    let n = v.unicode_len();
    if n != 55 {
        return None;
    }
    if v.get_char(0) != '0' || v.get_char(1) != '0' || v.get_char(2) != '-' || v.get_char(35)
        != '-' || v.get_char(52) != '-' {
        return None;
    }
    let trace_id = v.substring_char(3, 35);
    let span_id = v.substring_char(36, 52);
    let trace_flags = v.substring_char(53, 55);
    if !is_hex_field(trace_id, 32) || !has_nonzero_char(trace_id) {
        return None;
    }
    if !is_hex_field(span_id, 16) || !has_nonzero_char(span_id) {
        return None;
    }
    if !is_hex_field(trace_flags, 2) {
        return None;
    }
    let c = SpanContext {
        trace_id: trace_id.to_owned(),
        span_id: span_id.to_owned(),
        trace_flags: trace_flags.to_owned(),
    };
    proof {
        assert(parse_traceparent(v@) == Some(c@)) by {
            assert(parse_traceparent(v@).unwrap() =~= c@);
        }
    }
    Some(c)
}

/// Writes the context into the carrier as the propagation header.
pub fn inject_context(c: &SpanContext, headers: &mut Carrier)
    ensures
        final(headers)@ == spec_inject(old(headers)@, c@),
{
    let value = format_traceparent(c);
    headers.set("traceparent".to_owned(), value);
}

/// Reads the parent context out of the carrier; `None` stands for "no
/// parent", whether the header is absent or malformed.
pub fn extract_context(headers: &Carrier) -> (r: Option<SpanContext>)
    ensures
        match r {
            Some(c) => extract_model(headers@) == Some(c@) && ctx_wf(c@),
            None => extract_model(headers@) is None,
        },
{
    match headers.get("traceparent") {
        None => None,
        Some(v) => parse_traceparent_str(v.as_str()),
    }
}

/// Round trip of the header value alone: a well-formed context parses back
/// from its own rendering unchanged.
pub proof fn lemma_parse_format_round_trip(c: CtxView)
    requires
        ctx_wf(c),
    ensures
        parse_traceparent(traceparent_value(c)) == Some(c),
{
    reveal_strlit("00-");
    reveal_strlit("-");
    let v = traceparent_value(c);
    assert(v.len() == 55);
    assert(v[0] == '0' && v[1] == '0' && v[2] == '-' && v[35] == '-' && v[52] == '-');
    assert(v.subrange(3, 35) =~= c.trace_id);
    assert(v.subrange(36, 52) =~= c.span_id);
    assert(v.subrange(53, 55) =~= c.trace_flags);
    assert(parse_traceparent(v).unwrap() =~= c);
}

/// Round trip through a carrier: a context injected on the sending side is
/// exactly what the receiving side extracts, whatever else the carrier holds.
pub proof fn lemma_inject_extract_round_trip(entries: Seq<(Seq<char>, Seq<char>)>, c: CtxView)
    requires
        ctx_wf(c),
    ensures
        extract_model(spec_inject(entries, c)) == Some(c),
{
    let injected = spec_inject(entries, c);
    assert(injected[0] == (traceparent_key(), traceparent_value(c)));
    assert(lookup(injected, traceparent_key()) == Some(traceparent_value(c)));
    lemma_parse_format_round_trip(c);
}

} // verus!
