use tracekit::carrier::Carrier;
use tracekit::client::{finish_get, port_of, Api, TraceableHttpClient, UriScheme};
use tracekit::context::{FreshIds, SpanContext};
use tracekit::middleware::begin_server_span;
use tracekit::middleware::RequestFacts;
use tracekit::span::{Span, SpanKind};
use tracekit::text::u32_to_dec;

const TRACE_ID: &str = "0af7651916cd43dd8448eb211c80319c";
const CLIENT_SPAN_ID: &str = "b7ad6b7169203331";

fn fresh_ids() -> FreshIds {
    FreshIds::new(TRACE_ID.to_string(), CLIENT_SPAN_ID.to_string()).expect("well-formed ids")
}

fn attr(span: &Span, key: &str) -> Option<String> {
    span.attributes
        .iter()
        .find(|(k, _)| k.as_str() == key)
        .map(|(_, v)| v.clone())
}

fn header(headers: &Carrier, key: &str) -> Option<String> {
    headers.get(key)
}

#[test]
fn base_url_renders_the_port_only_when_present() {
    let with_port = TraceableHttpClient::new(UriScheme::Http, "localhost".to_string(), Some(9000));
    assert_eq!(with_port.base_url, "http://localhost:9000");
    let call = with_port.begin_get("status", None, fresh_ids());
    assert_eq!(call.url_full, "http://localhost:9000/status");

    let without_port = TraceableHttpClient::new(UriScheme::Http, "localhost".to_string(), None);
    assert_eq!(without_port.base_url, "http://localhost");
    let call = without_port.begin_get("status", None, fresh_ids());
    assert_eq!(call.url_full, "http://localhost/status");

    let https = TraceableHttpClient::new(UriScheme::Https, "example.org".to_string(), Some(443));
    assert_eq!(https.base_url, "https://example.org:443");
}

#[test]
fn outbound_call_under_a_parent_is_its_child_and_carries_the_header() {
    let parent = SpanContext::new(
        TRACE_ID.to_string(),
        "00f067aa0ba902b7".to_string(),
        "01".to_string(),
    )
    .expect("well-formed context");
    let client = TraceableHttpClient::new(UriScheme::Http, "localhost".to_string(), Some(9000));
    let ids = FreshIds::new(
        "22222222222222222222222222222222".to_string(),
        CLIENT_SPAN_ID.to_string(),
    )
    .expect("well-formed ids");
    let mut call = client.begin_get("status", Some(parent), ids);

    assert_eq!(call.span.name, "GET");
    assert_eq!(call.span.kind, SpanKind::Client);
    let span_parent = call.span.parent.as_ref().expect("parent kept");
    assert_eq!(span_parent.span_id, "00f067aa0ba902b7");
    assert_eq!(call.span.context.trace_id, TRACE_ID);
    assert_eq!(call.span.context.span_id, CLIENT_SPAN_ID);

    assert_eq!(
        header(&call.headers, "traceparent"),
        Some(format!("00-{TRACE_ID}-{CLIENT_SPAN_ID}-01"))
    );
    assert_eq!(
        header(&call.headers, "user-agent"),
        Some("http-client".to_string())
    );

    assert_eq!(attr(&call.span, "server.address"), Some("localhost".to_string()));
    assert_eq!(attr(&call.span, "server.port"), Some("9000".to_string()));
    assert_eq!(
        attr(&call.span, "url.full"),
        Some("http://localhost:9000/status".to_string())
    );
    assert_eq!(attr(&call.span, "http.request.method"), Some("GET".to_string()));

    // A transport failure still ends the span, without a status attribute.
    finish_get(&mut call.span, None);
    assert!(call.span.ended);
    assert_eq!(attr(&call.span, "http.response.status_code"), None);
}

#[test]
fn outbound_call_without_a_parent_opens_a_fresh_trace() {
    let client = TraceableHttpClient::new(UriScheme::Http, "localhost".to_string(), None);
    let mut call = client.begin_get("status", None, fresh_ids());
    assert!(call.span.parent.is_none());
    assert_eq!(call.span.context.trace_id, TRACE_ID);
    assert_eq!(call.span.context.trace_flags, "01");

    finish_get(&mut call.span, Some(200));
    assert!(call.span.ended);
    assert_eq!(
        attr(&call.span, "http.response.status_code"),
        Some("200".to_string())
    );
}

#[test]
fn injected_context_becomes_the_next_hop_parent() {
    let client = TraceableHttpClient::new(UriScheme::Http, "localhost".to_string(), Some(9000));
    let call = client.begin_get("status", None, fresh_ids());

    let downstream_facts = RequestFacts {
        method: "GET".to_string(),
        path: "/status".to_string(),
        route: "/status".to_string(),
        client_address: "127.0.0.1".to_string(),
        client_port: 51000,
        user_agent: Some("http-client".to_string()),
        host: None,
        scheme: None,
        query: None,
    };
    let downstream_ids = FreshIds::new(
        "33333333333333333333333333333333".to_string(),
        "00f067aa0ba902b7".to_string(),
    )
    .expect("well-formed ids");
    let server_span = begin_server_span(&downstream_facts, &call.headers, downstream_ids);

    let parent = server_span.parent.expect("extracted parent");
    assert_eq!(parent.span_id, call.span.context.span_id);
    assert_eq!(parent.trace_id, call.span.context.trace_id);
    assert_eq!(server_span.context.trace_id, call.span.context.trace_id);
}

#[test]
fn apis_map_to_their_fixed_ports() {
    assert_eq!(port_of(&Api::Axum), 5000);
    assert_eq!(port_of(&Api::AxumDownstream), 9000);
    assert_eq!(port_of(&Api::Dotnet), 5240);
}

#[test]
fn decimal_rendering_matches_the_usual_form() {
    assert_eq!(u32_to_dec(0), "0");
    assert_eq!(u32_to_dec(7), "7");
    assert_eq!(u32_to_dec(200), "200");
    assert_eq!(u32_to_dec(65535), "65535");
    assert_eq!(u32_to_dec(u32::MAX), "4294967295");
}
