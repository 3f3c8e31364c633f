//! The inbound tracing middleware, as a pair of pure steps around the
//! handler: before it runs, extract the parent context from the headers and
//! start a fully annotated server span; after it returns, record the response
//! status and end the span. The caller performs the handler call between the
//! two and must finish every span it begins, on success and on failure alike.

use vstd::prelude::*;
use vstd::string::*;

use crate::carrier::Carrier;
use crate::context::FreshIds;
use crate::propagation::{extract_context, extract_model};
use crate::span::{spec_end, spec_set_attribute, spec_start, Span, SpanKind, SpanView};
use crate::text::{all_dec_digits, dec_digits, dec_val, u32_to_dec};

verus! {

/// The host a request was addressed to, as the `host` header names it:
/// a host name and, when one was written after a colon, a port.
pub struct HostInfo {
    pub name: String,
    pub port: Option<u16>,
}

/// What the middleware reads off one inbound request. Every optional field
/// may be absent without affecting the span's creation or ending; only the
/// matching attribute is then omitted.
pub struct RequestFacts {
    pub method: String,
    pub path: String,
    pub route: String,
    pub client_address: String,
    pub client_port: u16,
    pub user_agent: Option<String>,
    pub host: Option<HostInfo>,
    pub scheme: Option<String>,
    pub query: Option<String>,
}

/// The server span's name: the method and the matched route, space-separated.
pub open spec fn server_span_name(f: RequestFacts) -> Seq<char> {
    f.method@ + " "@ + f.route@
}

/// The attributes the middleware sets before the handler runs, in order;
/// an absent optional fact contributes nothing.
pub open spec fn server_attrs(f: RequestFacts) -> Seq<(Seq<char>, Seq<char>)> {
    seq![
        ("client.address"@, f.client_address@),
        ("client.port"@, dec_digits(f.client_port as nat)),
        ("url.path"@, f.path@),
        ("http.request.method"@, f.method@),
    ] + (match f.user_agent {
        Some(ua) => seq![("user_agent.original"@, ua@)],
        None => Seq::<(Seq<char>, Seq<char>)>::empty(),
    }) + (match f.host {
        Some(h) => seq![("server.address"@, h.name@)],
        None => Seq::<(Seq<char>, Seq<char>)>::empty(),
    }) + seq![("http.route"@, f.route@)] + (match f.host {
        Some(h) => match h.port {
            Some(p) => seq![("server.port"@, dec_digits(p as nat))],
            None => Seq::<(Seq<char>, Seq<char>)>::empty(),
        },
        None => Seq::<(Seq<char>, Seq<char>)>::empty(),
    }) + (match f.scheme {
        Some(s) => seq![("url.scheme"@, s@)],
        None => Seq::<(Seq<char>, Seq<char>)>::empty(),
    }) + (match f.query {
        Some(q) => seq![("url.query"@, q@)],
        None => Seq::<(Seq<char>, Seq<char>)>::empty(),
    })
}

/// The server span as it stands when the handler is invoked: parented on
/// whatever the headers carried, annotated, not yet ended.
pub open spec fn spec_begin_server(
    f: RequestFacts,
    headers: Seq<(Seq<char>, Seq<char>)>,
    trace_id: Seq<char>,
    span_id: Seq<char>,
) -> SpanView {
    SpanView {
        attributes: server_attrs(f),
        ..spec_start(
            server_span_name(f),
            SpanKind::Server,
            extract_model(headers),
            trace_id,
            span_id,
        )
    }
}

/// The server span after the handler returned with `status`: the status
/// recorded, the span ended.
pub open spec fn spec_finish_server(s: SpanView, status: u16) -> SpanView {
    spec_end(
        spec_set_attribute(s, "http.response.status_code"@, dec_digits(status as nat)),
    )
}

/// Starts the one server span of a request: parent extracted from the
/// headers (a fresh root when the propagation header is absent or
/// malformed), named after method and route, annotated with every fact that
/// is present.
pub fn begin_server_span(facts: &RequestFacts, headers: &Carrier, ids: FreshIds) -> (s: Span)
    requires
        ids.wf(),
    ensures
        s@ == spec_begin_server(*facts, headers@, ids.trace_id@, ids.span_id@),
{
    let parent = extract_context(headers);
    let name = facts.method.clone().concat(" ").concat(facts.route.as_str());
    let mut s = Span::start(name, SpanKind::Server, parent, ids);
    s.set_attribute("client.address", facts.client_address.clone());
    s.set_attribute("client.port", u32_to_dec(facts.client_port as u32));
    s.set_attribute("url.path", facts.path.clone());
    s.set_attribute("http.request.method", facts.method.clone());
    if let Some(ua) = &facts.user_agent {
        s.set_attribute("user_agent.original", ua.clone());
    }
    if let Some(h) = &facts.host {
        s.set_attribute("server.address", h.name.clone());
    }
    s.set_attribute("http.route", facts.route.clone());
    if let Some(h) = &facts.host {
        if let Some(p) = h.port {
            s.set_attribute("server.port", u32_to_dec(p as u32));
        }
    }
    if let Some(sc) = &facts.scheme {
        s.set_attribute("url.scheme", sc.clone());
    }
    if let Some(q) = &facts.query {
        s.set_attribute("url.query", q.clone());
    }
    proof {
        assert(s@.attributes =~= server_attrs(*facts));
        assert(s@ =~= spec_begin_server(*facts, headers@, ids.trace_id@, ids.span_id@));
    }
    s
}

/// Records the response status on the request's server span and ends it.
/// Called on every exit path, whatever the status says of the handler.
pub fn finish_server_span(s: &mut Span, status: u16)
    requires
        !old(s)@.ended,
    ensures
        final(s)@ == spec_finish_server(old(s)@, status),
{
    s.set_attribute("http.response.status_code", u32_to_dec(status as u32));
    s.end();
}

/// Reads a port written in decimal, accepting exactly the strings of one to
/// five digits whose value fits a port number.
pub fn parse_port(s: &str) -> (r: Option<u16>)
    ensures
        match r {
            Some(p) => all_dec_digits(s@) && 1 <= s@.len() <= 5 && dec_val(s@) <= 65535 && p
                == dec_val(s@),
            None => !(all_dec_digits(s@) && 1 <= s@.len() <= 5 && dec_val(s@) <= 65535),
        },
{
    let len = s.unicode_len();
    if len < 1 || len > 5 {
        return None;
    }
    let mut acc: u32 = 0;
    let mut i: usize = 0;
    while i < len
        invariant
            i <= len,
            len == s@.len(),
            len <= 5,
            all_dec_digits(s@.subrange(0, i as int)),
            acc == dec_val(s@.subrange(0, i as int)),
            acc < 100000,
        decreases len - i,
    {
        let c = s.get_char(i);
        let u = c as u32;
        if u < 48 || u > 57 {
            return None;
        }
        proof {
            let pre = s@.subrange(0, i as int);
            let post = s@.subrange(0, i as int + 1);
            assert(post.drop_last() =~= pre);
            assert(post.last() == s@[i as int]);
            crate::text::lemma_dec_val_bound(post);
            crate::text::lemma_pow10_small(post.len());
        }
        acc = acc * 10 + (u - 48);
        i += 1;
    }
    proof {
        assert(s@.subrange(0, len as int) =~= s@);
    }
    if acc > 65535 {
        return None;
    }
    Some(acc as u16)
}

/// The position of the first colon, if any.
pub open spec fn first_colon(s: Seq<char>) -> Option<nat>
    decreases s.len(),
{
    if s.len() == 0 {
        None
    } else if s[0] == ':' {
        Some(0)
    } else {
        match first_colon(s.drop_first()) {
            Some(i) => Some(i + 1),
            None => None,
        }
    }
}

/// Whether a character sequence is a well-formed port: one to five decimal
/// digits denoting at most 65535.
pub open spec fn port_text_ok(s: Seq<char>) -> bool {
    all_dec_digits(s) && 1 <= s.len() <= 5 && dec_val(s) <= 65535
}

/// What a `host` header value means: the name before the first colon (the
/// whole value when there is none) and the port after it. A value with an
/// empty name, an empty value, or an ill-formed port means nothing.
pub open spec fn host_model(s: Seq<char>) -> Option<(Seq<char>, Option<nat>)> {
    match first_colon(s) {
        None => if s.len() == 0 {
            None
        } else {
            Some((s, None))
        },
        Some(i) => if i == 0 {
            None
        } else {
            let port = s.subrange(i + 1 as int, s.len() as int);
            if port_text_ok(port) {
                Some((s.subrange(0, i as int), Some(dec_val(port))))
            } else {
                None
            }
        },
    }
}

proof fn lemma_first_colon_at(s: Seq<char>, i: int)
    requires
        0 <= i < s.len(),
        s[i] == ':',
        forall|j: int| 0 <= j < i ==> s[j] != ':',
    ensures
        first_colon(s) == Some(i as nat),
    decreases i,
{
    if i > 0 {
        lemma_first_colon_at(s.drop_first(), i - 1);
    }
}

proof fn lemma_no_colon(s: Seq<char>)
    requires
        forall|j: int| 0 <= j < s.len() ==> s[j] != ':',
    ensures
        first_colon(s) is None,
    decreases s.len(),
{
    if s.len() > 0 {
        lemma_no_colon(s.drop_first());
    }
}

/// Splits a `host` header value into name and optional port, accepting
/// exactly what `host_model` gives a meaning. A value that fits no shape
/// yields nothing, and the caller omits the host attributes.
pub fn parse_host(s: &str) -> (r: Option<HostInfo>)
    ensures
        match r {
            Some(h) => host_model(s@) == Some(
                (h.name@, match h.port {
                    Some(p) => Some(p as nat),
                    None => None::<nat>,
                }),
            ),
            None => host_model(s@) is None,
        },
{
    let len = s.unicode_len();
    let mut i: usize = 0;
    while i < len
        invariant
            i <= len,
            len == s@.len(),
            forall|j: int| 0 <= j < i ==> s@[j] != ':',
        decreases len - i,
    {
        if s.get_char(i) == ':' {
            proof {
                lemma_first_colon_at(s@, i as int);
            }
            if i == 0 {
                return None;
            }
            let name = s.substring_char(0, i);
            let port_part = s.substring_char(i + 1, len);
            return match parse_port(port_part) {
                Some(p) => Some(HostInfo { name: name.to_owned(), port: Some(p) }),
                None => None,
            };
        }
        i += 1;
    }
    proof {
        lemma_no_colon(s@);
    }
    if len == 0 {
        return None;
    }
    Some(HostInfo { name: s.to_owned(), port: None })
}

} // verus!
