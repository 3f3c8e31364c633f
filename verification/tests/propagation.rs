use tracekit::carrier::Carrier;
use tracekit::context::{FreshIds, SpanContext};
use tracekit::propagation::{
    extract_context, format_traceparent, inject_context, parse_traceparent_str,
};

const TRACE_ID: &str = "0af7651916cd43dd8448eb211c80319c";
const SPAN_ID: &str = "b7ad6b7169203331";

fn sample_context() -> SpanContext {
    SpanContext::new(
        TRACE_ID.to_string(),
        SPAN_ID.to_string(),
        "01".to_string(),
    )
    .expect("well-formed context")
}

#[test]
fn traceparent_renders_in_w3c_form() {
    let value = format_traceparent(&sample_context());
    assert_eq!(
        value,
        "00-0af7651916cd43dd8448eb211c80319c-b7ad6b7169203331-01"
    );
}

#[test]
fn traceparent_parses_back_to_its_fields() {
    let parsed = parse_traceparent_str("00-0af7651916cd43dd8448eb211c80319c-b7ad6b7169203331-01")
        .expect("well-formed header");
    assert_eq!(parsed.trace_id, TRACE_ID);
    assert_eq!(parsed.span_id, SPAN_ID);
    assert_eq!(parsed.trace_flags, "01");
}

#[test]
fn inject_then_extract_returns_the_same_context() {
    let cx = sample_context();
    let mut headers = Carrier::new();
    headers.set("accept".to_string(), "text/plain".to_string());
    inject_context(&cx, &mut headers);
    let extracted = extract_context(&headers).expect("context must round-trip");
    assert_eq!(extracted.trace_id, TRACE_ID);
    assert_eq!(extracted.span_id, SPAN_ID);
    assert_eq!(extracted.trace_flags, "01");
}

#[test]
fn extract_without_header_yields_no_parent() {
    let mut headers = Carrier::new();
    headers.set("accept".to_string(), "text/plain".to_string());
    assert!(extract_context(&headers).is_none());
    assert!(extract_context(&Carrier::new()).is_none());
}

#[test]
fn malformed_traceparent_yields_no_parent() {
    let cases = [
        "",
        "00",
        "00-0af7651916cd43dd8448eb211c80319c-b7ad6b7169203331",
        "01-0af7651916cd43dd8448eb211c80319c-b7ad6b7169203331-01",
        "00-0AF7651916CD43DD8448EB211C80319C-b7ad6b7169203331-01",
        "00-00000000000000000000000000000000-b7ad6b7169203331-01",
        "00-0af7651916cd43dd8448eb211c80319c-0000000000000000-01",
        "00-0af7651916cd43dd8448eb211c80319c-b7ad6b7169203331-0g",
        "00x0af7651916cd43dd8448eb211c80319c-b7ad6b7169203331-01",
        "00-0af7651916cd43dd8448eb211c80319cxb7ad6b7169203331-01",
        "00-0af7651916cd43dd8448eb211c80319c-b7ad6b7169203331x01",
    ];
    for case in cases {
        assert!(
            parse_traceparent_str(case).is_none(),
            "accepted malformed header: {case:?}"
        );
    }
    let mut headers = Carrier::new();
    headers.set("traceparent".to_string(), "garbage".to_string());
    assert!(extract_context(&headers).is_none());
}

#[test]
fn carrier_set_shadows_and_preserves_other_names() {
    let mut headers = Carrier::new();
    headers.set("accept".to_string(), "text/plain".to_string());
    headers.set("traceparent".to_string(), "first".to_string());
    headers.set("traceparent".to_string(), "second".to_string());
    assert_eq!(headers.get("traceparent"), Some("second".to_string()));
    assert_eq!(headers.get("accept"), Some("text/plain".to_string()));
    assert_eq!(headers.get("host"), None);
}

#[test]
fn context_and_ids_accept_exactly_the_well_formed() {
    assert!(SpanContext::new(TRACE_ID.to_string(), SPAN_ID.to_string(), "01".to_string()).is_some());
    assert!(SpanContext::new("short".to_string(), SPAN_ID.to_string(), "01".to_string()).is_none());
    assert!(SpanContext::new(
        "00000000000000000000000000000000".to_string(),
        SPAN_ID.to_string(),
        "01".to_string()
    )
    .is_none());
    assert!(FreshIds::new(TRACE_ID.to_string(), SPAN_ID.to_string()).is_some());
    assert!(FreshIds::new(TRACE_ID.to_string(), "0000000000000000".to_string()).is_none());
    assert!(FreshIds::new(TRACE_ID.to_string(), "B7AD6B7169203331".to_string()).is_none());
}
