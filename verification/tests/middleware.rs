use tracekit::carrier::Carrier;
use tracekit::context::{FreshIds, SpanContext};
use tracekit::handlers::greet_message;
use tracekit::middleware::{
    begin_server_span, finish_server_span, parse_host, parse_port, HostInfo, RequestFacts,
};
use tracekit::propagation::inject_context;
use tracekit::span::{Span, SpanKind};

const TRACE_ID: &str = "0af7651916cd43dd8448eb211c80319c";
const SERVER_SPAN_ID: &str = "00f067aa0ba902b7";

fn fresh_ids() -> FreshIds {
    FreshIds::new(TRACE_ID.to_string(), SERVER_SPAN_ID.to_string()).expect("well-formed ids")
}

fn greet_facts() -> RequestFacts {
    RequestFacts {
        method: "GET".to_string(),
        path: "/greet/foo/bar".to_string(),
        route: "/greet/:first_name/:last_name".to_string(),
        client_address: "127.0.0.1".to_string(),
        client_port: 40312,
        user_agent: Some("curl/8.0".to_string()),
        host: Some(HostInfo {
            name: "localhost".to_string(),
            port: Some(5000),
        }),
        scheme: None,
        query: None,
    }
}

fn attr(span: &Span, key: &str) -> Option<String> {
    span.attributes
        .iter()
        .find(|(k, _)| k.as_str() == key)
        .map(|(_, v)| v.clone())
}

#[test]
fn greet_request_without_header_makes_a_root_server_span() {
    let facts = greet_facts();
    let headers = Carrier::new();
    let mut span = begin_server_span(&facts, &headers, fresh_ids());
    assert_eq!(span.name, "GET /greet/:first_name/:last_name");
    assert_eq!(span.kind, SpanKind::Server);
    assert!(span.parent.is_none());
    assert_eq!(span.context.trace_id, TRACE_ID);
    assert_eq!(span.context.span_id, SERVER_SPAN_ID);
    assert_eq!(span.context.trace_flags, "01");
    assert!(!span.ended);
    assert_eq!(attr(&span, "http.request.method"), Some("GET".to_string()));
    assert_eq!(attr(&span, "url.path"), Some("/greet/foo/bar".to_string()));
    assert_eq!(
        attr(&span, "http.route"),
        Some("/greet/:first_name/:last_name".to_string())
    );
    assert_eq!(attr(&span, "client.address"), Some("127.0.0.1".to_string()));
    assert_eq!(attr(&span, "client.port"), Some("40312".to_string()));
    assert_eq!(attr(&span, "server.address"), Some("localhost".to_string()));
    assert_eq!(attr(&span, "server.port"), Some("5000".to_string()));
    assert_eq!(attr(&span, "http.response.status_code"), None);

    assert_eq!(
        greet_message("foo", "bar"),
        "Hello foo bar, the axum-api server greets you!"
    );

    finish_server_span(&mut span, 200);
    assert!(span.ended);
    assert_eq!(
        attr(&span, "http.response.status_code"),
        Some("200".to_string())
    );
}

#[test]
fn server_span_continues_the_inbound_trace() {
    let parent = SpanContext::new(
        TRACE_ID.to_string(),
        "b7ad6b7169203331".to_string(),
        "01".to_string(),
    )
    .expect("well-formed context");
    let mut headers = Carrier::new();
    inject_context(&parent, &mut headers);
    let ids = FreshIds::new(
        "11111111111111111111111111111111".to_string(),
        SERVER_SPAN_ID.to_string(),
    )
    .expect("well-formed ids");
    let span = begin_server_span(&greet_facts(), &headers, ids);
    let got_parent = span.parent.expect("parent extracted");
    assert_eq!(got_parent.trace_id, TRACE_ID);
    assert_eq!(got_parent.span_id, "b7ad6b7169203331");
    assert_eq!(span.context.trace_id, TRACE_ID);
    assert_eq!(span.context.span_id, SERVER_SPAN_ID);
}

#[test]
fn span_is_ended_once_whatever_the_status_says() {
    for status in [200u16, 404, 500] {
        let mut span = begin_server_span(&greet_facts(), &Carrier::new(), fresh_ids());
        assert!(!span.ended);
        finish_server_span(&mut span, status);
        assert!(span.ended);
        assert_eq!(
            attr(&span, "http.response.status_code"),
            Some(status.to_string())
        );
    }
}

#[test]
fn absent_optional_facts_omit_attributes_only() {
    let bare = RequestFacts {
        user_agent: None,
        host: None,
        scheme: None,
        query: None,
        ..greet_facts()
    };
    let full = RequestFacts {
        scheme: Some("http".to_string()),
        query: Some("q=foo".to_string()),
        ..greet_facts()
    };
    let mut bare_span = begin_server_span(&bare, &Carrier::new(), fresh_ids());
    let mut full_span = begin_server_span(&full, &Carrier::new(), fresh_ids());

    assert_eq!(bare_span.name, full_span.name);
    assert_eq!(bare_span.kind, full_span.kind);
    assert_eq!(bare_span.ended, full_span.ended);
    assert_eq!(bare_span.context.trace_id, full_span.context.trace_id);

    assert_eq!(attr(&bare_span, "user_agent.original"), None);
    assert_eq!(attr(&bare_span, "server.address"), None);
    assert_eq!(attr(&bare_span, "server.port"), None);
    assert_eq!(attr(&bare_span, "url.scheme"), None);
    assert_eq!(attr(&bare_span, "url.query"), None);
    assert_eq!(
        attr(&full_span, "user_agent.original"),
        Some("curl/8.0".to_string())
    );
    assert_eq!(attr(&full_span, "url.scheme"), Some("http".to_string()));
    assert_eq!(attr(&full_span, "url.query"), Some("q=foo".to_string()));

    finish_server_span(&mut bare_span, 200);
    finish_server_span(&mut full_span, 200);
    assert!(bare_span.ended && full_span.ended);
}

#[test]
fn host_values_split_into_name_and_port() {
    let with_port = parse_host("localhost:9000").expect("well-formed host");
    assert_eq!(with_port.name, "localhost");
    assert_eq!(with_port.port, Some(9000));

    let without_port = parse_host("localhost").expect("well-formed host");
    assert_eq!(without_port.name, "localhost");
    assert_eq!(without_port.port, None);
}

#[test]
fn malformed_hosts_are_rejected_not_crashed() {
    for case in ["", ":9000", "localhost:", "localhost:abc", "localhost:70000", "a:1:2"] {
        assert!(parse_host(case).is_none(), "accepted malformed host: {case:?}");
    }
}

#[test]
fn ports_parse_exactly_within_range() {
    assert_eq!(parse_port("0"), Some(0));
    assert_eq!(parse_port("9000"), Some(9000));
    assert_eq!(parse_port("65535"), Some(65535));
    assert_eq!(parse_port("65536"), None);
    assert_eq!(parse_port("123456"), None);
    assert_eq!(parse_port(""), None);
    assert_eq!(parse_port("12a"), None);
}
