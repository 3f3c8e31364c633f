//! What the protocol guarantees, proved once for every input: each operation
//! emits one span and ends it exactly once on every path; a context injected
//! on the sending side is the parent the receiving side extracts; and an
//! absent optional fact changes which attributes a span carries, never
//! whether it is created or ended.

use vstd::prelude::*;

use crate::client::{outbound_headers, spec_begin_get, spec_finish_get, TraceableHttpClient};
use crate::context::{ctx_wf, ids_wf, CtxView};
use crate::middleware::{
    server_attrs, spec_begin_server, spec_finish_server, RequestFacts,
};
use crate::propagation::lemma_inject_extract_round_trip;
use crate::span::lemma_start_context_wf;
use crate::text::dec_digits;

verus! {

/// Whether some attribute of the list bears this key.
pub open spec fn has_attr_key(attrs: Seq<(Seq<char>, Seq<char>)>, key: Seq<char>) -> bool {
    exists|i: int| 0 <= i < attrs.len() && attrs[i].0 == key
}

/// A key is borne by a concatenation exactly when one part bears it.
proof fn lemma_has_attr_key_concat(
    a: Seq<(Seq<char>, Seq<char>)>,
    b: Seq<(Seq<char>, Seq<char>)>,
    key: Seq<char>,
)
    ensures
        has_attr_key(a + b, key) <==> (has_attr_key(a, key) || has_attr_key(b, key)),
{
    if has_attr_key(a + b, key) {
        let i = choose|i: int| 0 <= i < (a + b).len() && (a + b)[i].0 == key;
        if i < a.len() {
            assert(a[i].0 == key);
        } else {
            assert(b[i - a.len()].0 == key);
        }
    }
    if has_attr_key(a, key) {
        let i = choose|i: int| 0 <= i < a.len() && a[i].0 == key;
        assert((a + b)[i].0 == key);
    }
    if has_attr_key(b, key) {
        let i = choose|i: int| 0 <= i < b.len() && b[i].0 == key;
        assert((a + b)[a.len() + i].0 == key);
    }
}

/// The middleware's span, begun before the handler and finished after it
/// with the response status, is emitted once per request: born live, ended
/// by finishing, and finishing touches nothing but the status attribute and
/// the end mark — whatever status the handler's response carries.
pub proof fn lemma_one_server_span_per_request(
    f: RequestFacts,
    headers: Seq<(Seq<char>, Seq<char>)>,
    trace_id: Seq<char>,
    span_id: Seq<char>,
    status: u16,
)
    ensures
        ({
            let begun = spec_begin_server(f, headers, trace_id, span_id);
            let done = spec_finish_server(begun, status);
            &&& !begun.ended
            &&& done.ended
            &&& done.name == begun.name
            &&& done.kind == begun.kind
            &&& done.context == begun.context
            &&& done.parent == begun.parent
            &&& done.attributes == begun.attributes.push(
                ("http.response.status_code"@, dec_digits(status as nat)),
            )
        }),
{
}

/// The client's span, begun before the send and finished after it, is
/// emitted once per call and ended on the success path and the
/// transport-failure path alike; only on success does it gain the status
/// attribute.
pub proof fn lemma_one_client_span_per_call(
    client: TraceableHttpClient,
    url_full: Seq<char>,
    parent: Option<CtxView>,
    trace_id: Seq<char>,
    span_id: Seq<char>,
    status: Option<u16>,
)
    ensures
        ({
            let begun = spec_begin_get(client, url_full, parent, trace_id, span_id);
            let done = spec_finish_get(begun, status);
            &&& !begun.ended
            &&& done.ended
            &&& done.name == begun.name
            &&& done.kind == begun.kind
            &&& done.context == begun.context
            &&& done.parent == begun.parent
            &&& (status matches Some(st) ==> done.attributes == begun.attributes.push(
                ("http.response.status_code"@, dec_digits(st as nat)),
            ))
            &&& (status is None ==> done.attributes == begun.attributes)
        }),
{
}

/// Round trip across one hop: a server span begun from the headers the
/// outbound client leaves with is the client span's child — its extracted
/// parent is exactly the injecting span's context, its parent's span id the
/// injecting span's id, and it continues the same trace.
pub proof fn lemma_round_trip_makes_child(
    client: TraceableHttpClient,
    url_full: Seq<char>,
    parent: Option<CtxView>,
    client_trace_id: Seq<char>,
    client_span_id: Seq<char>,
    f: RequestFacts,
    server_trace_id: Seq<char>,
    server_span_id: Seq<char>,
)
    requires
        ids_wf(client_trace_id, client_span_id),
        parent matches Some(p) ==> ctx_wf(p),
    ensures
        ({
            let outbound = spec_begin_get(client, url_full, parent, client_trace_id,
                client_span_id);
            let server = spec_begin_server(
                f,
                outbound_headers(outbound.context),
                server_trace_id,
                server_span_id,
            );
            &&& server.parent == Some(outbound.context)
            &&& server.parent.unwrap().span_id == outbound.context.span_id
            &&& server.context.trace_id == outbound.context.trace_id
            &&& server.context.span_id == server_span_id
        }),
{
    let outbound = spec_begin_get(client, url_full, parent, client_trace_id, client_span_id);
    lemma_start_context_wf(parent, client_trace_id, client_span_id);
    lemma_inject_extract_round_trip(seq![("user-agent"@, "http-client"@)], outbound.context);
}

/// The facts every request carries.
pub open spec fn required_facts_eq(f1: RequestFacts, f2: RequestFacts) -> bool {
    &&& f1.method@ == f2.method@
    &&& f1.path@ == f2.path@
    &&& f1.route@ == f2.route@
    &&& f1.client_address@ == f2.client_address@
    &&& f1.client_port == f2.client_port
}

/// Omitting optional facts never touches the span's lifecycle: two requests
/// that agree on the required facts beget spans with the same name, kind,
/// context, parent and end marks, both born live and both ended by
/// finishing, however their optional facts differ.
pub proof fn lemma_optional_facts_affect_attributes_only(
    f1: RequestFacts,
    f2: RequestFacts,
    headers: Seq<(Seq<char>, Seq<char>)>,
    trace_id: Seq<char>,
    span_id: Seq<char>,
    status: u16,
)
    requires
        required_facts_eq(f1, f2),
    ensures
        ({
            let s1 = spec_begin_server(f1, headers, trace_id, span_id);
            let s2 = spec_begin_server(f2, headers, trace_id, span_id);
            &&& s1.name == s2.name
            &&& s1.kind == s2.kind
            &&& s1.context == s2.context
            &&& s1.parent == s2.parent
            &&& !s1.ended && !s2.ended
            &&& spec_finish_server(s1, status).ended
            &&& spec_finish_server(s2, status).ended
        }),
{
}

/// A key is borne by a one-attribute list exactly when it is that attribute's.
proof fn lemma_has_attr_key_singleton(k: Seq<char>, v: Seq<char>, key: Seq<char>)
    ensures
        has_attr_key(seq![(k, v)], key) <==> k == key,
{
    if k == key {
        assert(seq![(k, v)][0].0 == key);
    }
}

/// Which keys the server span's attribute list can bear, key by key.
proof fn lemma_server_attrs_key_split(f: RequestFacts, key: Seq<char>)
    ensures
        has_attr_key(server_attrs(f), key) <==> {
            ||| key == "client.address"@
            ||| key == "client.port"@
            ||| key == "url.path"@
            ||| key == "http.request.method"@
            ||| (f.user_agent is Some && key == "user_agent.original"@)
            ||| (f.host is Some && key == "server.address"@)
            ||| key == "http.route"@
            ||| (f.host matches Some(h) && h.port is Some && key == "server.port"@)
            ||| (f.scheme is Some && key == "url.scheme"@)
            ||| (f.query is Some && key == "url.query"@)
        },
{
    let base = seq![
        ("client.address"@, f.client_address@),
        ("client.port"@, dec_digits(f.client_port as nat)),
        ("url.path"@, f.path@),
        ("http.request.method"@, f.method@),
    ];
    let ua_seg = match f.user_agent {
        Some(ua) => seq![("user_agent.original"@, ua@)],
        None => Seq::<(Seq<char>, Seq<char>)>::empty(),
    };
    let host_seg = match f.host {
        Some(h) => seq![("server.address"@, h.name@)],
        None => Seq::<(Seq<char>, Seq<char>)>::empty(),
    };
    let route_seg = seq![("http.route"@, f.route@)];
    let port_seg = match f.host {
        Some(h) => match h.port {
            Some(p) => seq![("server.port"@, dec_digits(p as nat))],
            None => Seq::<(Seq<char>, Seq<char>)>::empty(),
        },
        None => Seq::<(Seq<char>, Seq<char>)>::empty(),
    };
    let scheme_seg = match f.scheme {
        Some(s) => seq![("url.scheme"@, s@)],
        None => Seq::<(Seq<char>, Seq<char>)>::empty(),
    };
    let query_seg = match f.query {
        Some(q) => seq![("url.query"@, q@)],
        None => Seq::<(Seq<char>, Seq<char>)>::empty(),
    };
    assert(server_attrs(f) == base + ua_seg + host_seg + route_seg + port_seg + scheme_seg
        + query_seg);
    lemma_has_attr_key_concat(
        base + ua_seg + host_seg + route_seg + port_seg + scheme_seg,
        query_seg,
        key,
    );
    lemma_has_attr_key_concat(base + ua_seg + host_seg + route_seg + port_seg, scheme_seg, key);
    lemma_has_attr_key_concat(base + ua_seg + host_seg + route_seg, port_seg, key);
    lemma_has_attr_key_concat(base + ua_seg + host_seg, route_seg, key);
    lemma_has_attr_key_concat(base + ua_seg, host_seg, key);
    lemma_has_attr_key_concat(base, ua_seg, key);
    assert(has_attr_key(base, key) <==> (key == "client.address"@ || key == "client.port"@ || key
        == "url.path"@ || key == "http.request.method"@)) by {
        if has_attr_key(base, key) {
            let i = choose|i: int| 0 <= i < base.len() && base[i].0 == key;
        } else {
            assert(base[0].0 == "client.address"@);
            assert(base[1].0 == "client.port"@);
            assert(base[2].0 == "url.path"@);
            assert(base[3].0 == "http.request.method"@);
        }
    }
    lemma_has_attr_key_singleton("http.route"@, f.route@, key);
    if let Some(ua) = f.user_agent {
        lemma_has_attr_key_singleton("user_agent.original"@, ua@, key);
    }
    if let Some(h) = f.host {
        lemma_has_attr_key_singleton("server.address"@, h.name@, key);
        if let Some(p) = h.port {
            lemma_has_attr_key_singleton("server.port"@, dec_digits(p as nat), key);
        }
    }
    if let Some(s) = f.scheme {
        lemma_has_attr_key_singleton("url.scheme"@, s@, key);
    }
    if let Some(q) = f.query {
        lemma_has_attr_key_singleton("url.query"@, q@, key);
    }
}

/// The attribute keys the middleware writes are pairwise distinct where their
/// purposes differ: no optional fact's key collides with any other key.
proof fn lemma_attr_keys_distinct()
    ensures
        "user_agent.original"@ != "client.address"@,
        "user_agent.original"@ != "client.port"@,
        "user_agent.original"@ != "url.path"@,
        "user_agent.original"@ != "http.request.method"@,
        "user_agent.original"@ != "server.address"@,
        "user_agent.original"@ != "http.route"@,
        "user_agent.original"@ != "server.port"@,
        "user_agent.original"@ != "url.scheme"@,
        "user_agent.original"@ != "url.query"@,
        "server.address"@ != "client.address"@,
        "server.address"@ != "client.port"@,
        "server.address"@ != "url.path"@,
        "server.address"@ != "http.request.method"@,
        "server.address"@ != "http.route"@,
        "server.address"@ != "server.port"@,
        "server.address"@ != "url.scheme"@,
        "server.address"@ != "url.query"@,
        "server.port"@ != "client.address"@,
        "server.port"@ != "client.port"@,
        "server.port"@ != "url.path"@,
        "server.port"@ != "http.request.method"@,
        "server.port"@ != "http.route"@,
        "server.port"@ != "url.scheme"@,
        "server.port"@ != "url.query"@,
        "url.scheme"@ != "client.address"@,
        "url.scheme"@ != "client.port"@,
        "url.scheme"@ != "url.path"@,
        "url.scheme"@ != "http.request.method"@,
        "url.scheme"@ != "http.route"@,
        "url.scheme"@ != "url.query"@,
        "url.query"@ != "client.address"@,
        "url.query"@ != "client.port"@,
        "url.query"@ != "url.path"@,
        "url.query"@ != "http.request.method"@,
        "url.query"@ != "http.route"@,
{
    reveal_strlit("client.address");
    reveal_strlit("client.port");
    reveal_strlit("url.path");
    reveal_strlit("http.request.method");
    reveal_strlit("user_agent.original");
    reveal_strlit("server.address");
    reveal_strlit("http.route");
    reveal_strlit("server.port");
    reveal_strlit("url.scheme");
    reveal_strlit("url.query");
    assert("client.address"@.len() == 14);
    assert("client.port"@.len() == 11);
    assert("url.path"@.len() == 8);
    assert("http.request.method"@.len() == 19);
    assert("user_agent.original"@.len() == 19);
    assert("server.address"@.len() == 14);
    assert("http.route"@.len() == 10);
    assert("server.port"@.len() == 11);
    assert("url.scheme"@.len() == 10);
    assert("url.query"@.len() == 9);
    assert("user_agent.original"@[0] == 'u' && "http.request.method"@[0] == 'h');
    assert("server.address"@[0] == 's' && "client.address"@[0] == 'c');
    assert("server.port"@[0] == 's' && "client.port"@[0] == 'c');
    assert("url.scheme"@[0] == 'u' && "http.route"@[0] == 'h');
}

/// Which attributes an optional fact contributes: each optional attribute
/// key is borne by the span exactly when the matching fact is present.
pub proof fn lemma_optional_attr_presence(f: RequestFacts)
    ensures
        has_attr_key(server_attrs(f), "user_agent.original"@) <==> f.user_agent is Some,
        has_attr_key(server_attrs(f), "server.address"@) <==> f.host is Some,
        has_attr_key(server_attrs(f), "server.port"@) <==> (f.host matches Some(h) && h.port
            is Some),
        has_attr_key(server_attrs(f), "url.scheme"@) <==> f.scheme is Some,
        has_attr_key(server_attrs(f), "url.query"@) <==> f.query is Some,
{
    lemma_attr_keys_distinct();
    lemma_server_attrs_key_split(f, "user_agent.original"@);
    lemma_server_attrs_key_split(f, "server.address"@);
    lemma_server_attrs_key_split(f, "server.port"@);
    lemma_server_attrs_key_split(f, "url.scheme"@);
    lemma_server_attrs_key_split(f, "url.query"@);
}

} // verus!
