//! The traceable outbound client, as a pair of pure steps around the network
//! send: before it, compose the URL, start an annotated client span and
//! inject its context into the outbound headers; after it, record the
//! response status when one arrived and end the span either way. The caller
//! performs the send between the two and must finish every call it begins,
//! on the transport-failure path as much as on success.

use vstd::prelude::*;
use vstd::string::*;

use crate::carrier::Carrier;
use crate::context::{opt_ctx_view, CtxView, FreshIds, SpanContext};
use crate::propagation::{inject_context, spec_inject};
use crate::span::{spec_end, spec_set_attribute, spec_start, Span, SpanKind, SpanView};
use crate::text::{dec_digits, u32_to_dec};

verus! {

#[derive(Clone, Copy, PartialEq, Eq, Structural, Debug)]
pub enum UriScheme {
    Http,
    Https,
}

pub open spec fn scheme_text(s: UriScheme) -> Seq<char> {
    match s {
        UriScheme::Http => "http"@,
        UriScheme::Https => "https"@,
    }
}

/// The base URL a client is addressed by: scheme, host, and, only when a
/// port is given, a colon and the port in decimal.
pub open spec fn base_url_text(scheme: UriScheme, host: Seq<char>, port: Option<u32>) -> Seq<
    char,
> {
    scheme_text(scheme) + "://"@ + host + (match port {
        Some(p) => ":"@ + dec_digits(p as nat),
        None => Seq::<char>::empty(),
    })
}

/// A client for one downstream service, addressed by scheme, host and
/// optional port. The base URL is composed once and never changes.
pub struct TraceableHttpClient {
    pub scheme: UriScheme,
    pub host: String,
    pub port: Option<u32>,
    pub base_url: String,
}

fn scheme_str(scheme: UriScheme) -> (r: &'static str)
    ensures
        r@ == scheme_text(scheme),
{
    match scheme {
        UriScheme::Http => "http",
        UriScheme::Https => "https",
    }
}

/// Everything one outbound call needs before the send: the composed URL, the
/// live client span, and the headers to put on the request, the span's
/// context already injected.
pub struct OutboundCall {
    pub url_full: String,
    pub span: Span,
    pub headers: Carrier,
}

/// The headers an outbound request leaves with: the fixed identifying
/// user-agent, and the propagation header in front of it.
pub open spec fn outbound_headers(ctx: CtxView) -> Seq<(Seq<char>, Seq<char>)> {
    spec_inject(seq![("user-agent"@, "http-client"@)], ctx)
}

/// The attributes a client span carries when the request leaves.
pub open spec fn client_attrs(host: Seq<char>, url_full: Seq<char>, port: Option<u32>) -> Seq<
    (Seq<char>, Seq<char>),
> {
    seq![("server.address"@, host), ("url.full"@, url_full), ("http.request.method"@, "GET"@)]
        + (match port {
        Some(p) => seq![("server.port"@, dec_digits(p as nat))],
        None => Seq::<(Seq<char>, Seq<char>)>::empty(),
    })
}

/// The client span as it stands when the request is sent.
pub open spec fn spec_begin_get(
    client: TraceableHttpClient,
    url_full: Seq<char>,
    parent: Option<CtxView>,
    trace_id: Seq<char>,
    span_id: Seq<char>,
) -> SpanView {
    SpanView {
        attributes: client_attrs(client.host@, url_full, client.port),
        ..spec_start("GET"@, SpanKind::Client, parent, trace_id, span_id)
    }
}

/// The client span after the call came back: on a response, its status is
/// recorded; on a transport failure there is no status to record. The span
/// ends either way.
pub open spec fn spec_finish_get(s: SpanView, status: Option<u16>) -> SpanView {
    match status {
        Some(st) => spec_end(
            spec_set_attribute(s, "http.response.status_code"@, dec_digits(st as nat)),
        ),
        None => spec_end(s),
    }
}

impl TraceableHttpClient {
    pub open spec fn wf(&self) -> bool {
        self.base_url@ == base_url_text(self.scheme, self.host@, self.port)
    }

    /// The URL of a relative endpoint: the base URL, a slash, the endpoint.
    pub open spec fn full_url_text(&self, rel: Seq<char>) -> Seq<char> {
        self.base_url@ + "/"@ + rel
    }

    pub fn new(scheme: UriScheme, host: String, port: Option<u32>) -> (r: TraceableHttpClient)
        ensures
            r.scheme == scheme,
            r.host@ == host@,
            r.port == port,
            r.base_url@ == base_url_text(scheme, host@, port),
            r.wf(),
    {
        let mut base_url: String = scheme_str(scheme).to_owned();
        base_url.append("://");
        base_url.append(host.as_str());
        if let Some(p) = port {
            base_url.append(":");
            base_url.append(u32_to_dec(p).as_str());
        }
        TraceableHttpClient { scheme, host, port, base_url }
    }

    /// Prepares the one client span and the one request of an outbound GET:
    /// the span is parented on the supplied context, or is a fresh root
    /// without one, and its own context travels in the request headers.
    pub fn begin_get(
        &self,
        rel_endpoint_url: &str,
        parent: Option<SpanContext>,
        ids: FreshIds,
    ) -> (r: OutboundCall)
        requires
            ids.wf(),
        ensures
            r.url_full@ == self.full_url_text(rel_endpoint_url@),
            r.span@ == spec_begin_get(
                *self,
                r.url_full@,
                opt_ctx_view(parent),
                ids.trace_id@,
                ids.span_id@,
            ),
            r.headers@ == outbound_headers(r.span@.context),
    {
        let mut url_full: String = self.base_url.clone();
        url_full.append("/");
        url_full.append(rel_endpoint_url);
        let mut span = Span::start("GET".to_owned(), SpanKind::Client, parent, ids);
        span.set_attribute("server.address", self.host.clone());
        span.set_attribute("url.full", url_full.clone());
        span.set_attribute("http.request.method", "GET".to_owned());
        if let Some(p) = self.port {
            span.set_attribute("server.port", u32_to_dec(p));
        }
        let mut headers = Carrier::new();
        headers.set("user-agent".to_owned(), "http-client".to_owned());
        inject_context(&span.context, &mut headers);
        proof {
            assert(span@.attributes =~= client_attrs(self.host@, url_full@, self.port));
            assert(span@ =~= spec_begin_get(
                *self,
                url_full@,
                opt_ctx_view(span.parent),
                ids.trace_id@,
                ids.span_id@,
            ));
            assert(headers@ =~= outbound_headers(span@.context));
        }
        OutboundCall { url_full, span, headers }
    }
}

/// Records the outcome of the send on the call's client span and ends it:
/// the received status on success, no status attribute on a transport
/// failure. Called on every exit path.
pub fn finish_get(span: &mut Span, status: Option<u16>)
    requires
        !old(span)@.ended,
    ensures
        final(span)@ == spec_finish_get(old(span)@, status),
{
    match status {
        Some(st) => {
            span.set_attribute("http.response.status_code", u32_to_dec(st as u32));
            span.end();
        },
        None => {
            span.end();
        },
    }
}

/// The services the interactive client can address, each on its fixed port.
pub enum Api {
    Axum,
    AxumDownstream,
    Dotnet,
}

pub open spec fn api_port(api: Api) -> u32 {
    match api {
        Api::Axum => 5000,
        Api::AxumDownstream => 9000,
        Api::Dotnet => 5240,
    }
}

pub fn port_of(api: &Api) -> (p: u32)
    ensures
        p == api_port(*api),
{
    match api {
        Api::Axum => 5000,
        Api::AxumDownstream => 9000,
        Api::Dotnet => 5240,
    }
}

} // verus!
