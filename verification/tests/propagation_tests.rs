use dice_trace::carrier::Carrier;
use dice_trace::context::TraceContext;
use dice_trace::propagation::{
    extract_context, extract_trace_state, inject_active_context, inject_context,
};

#[test]
fn carrier_set_and_get() {
    let mut c = Carrier::new();
    assert!(c.get(b"traceparent").is_none());
    c.set(b"accept".to_vec(), b"text/plain".to_vec());
    assert_eq!(c.get(b"accept").map(|v| v.as_slice()), Some(b"text/plain".as_slice()));
    assert!(c.get(b"traceparent").is_none());
}

#[test]
fn carrier_set_overwrites() {
    let mut c = Carrier::new();
    c.set(b"k".to_vec(), b"one".to_vec());
    c.set(b"k".to_vec(), b"two".to_vec());
    assert_eq!(c.get(b"k").map(|v| v.as_slice()), Some(b"two".as_slice()));
}

#[test]
fn inject_then_extract_round_trips() {
    let ctx = TraceContext::new(0x4bf92f3577b34da6a3ce929d0e0e4736, 0x00f067aa0ba902b7, 0x01)
        .expect("non-zero ids make a valid context");
    let mut c = Carrier::new();
    inject_context(&ctx, None, &mut c);
    let back = extract_context(&c).expect("an injected context must extract");
    assert_eq!(back.trace_id, ctx.trace_id);
    assert_eq!(back.span_id, ctx.span_id);
    assert_eq!(back.trace_flags, ctx.trace_flags);
}

#[test]
fn inject_overwrites_a_prior_header() {
    let first = TraceContext::new(1, 1, 0).expect("valid");
    let second = TraceContext::new(2, 2, 1).expect("valid");
    let mut c = Carrier::new();
    inject_context(&first, None, &mut c);
    inject_context(&second, None, &mut c);
    let back = extract_context(&c).expect("a context must extract");
    assert_eq!(back.trace_id, 2);
    assert_eq!(back.span_id, 2);
    assert_eq!(back.trace_flags, 1);
}

#[test]
fn trace_state_passes_through_unmodified() {
    let ctx = TraceContext::new(3, 4, 1).expect("valid");
    let mut c = Carrier::new();
    inject_context(&ctx, Some(b"congo=t61rcWkgMzE,rojo=00f067aa0ba902b7".to_vec()), &mut c);
    assert_eq!(
        extract_trace_state(&c).map(|v| v.as_slice()),
        Some(b"congo=t61rcWkgMzE,rojo=00f067aa0ba902b7".as_slice())
    );
}

#[test]
fn absent_header_means_no_context() {
    let c = Carrier::new();
    assert!(extract_context(&c).is_none());
    assert!(extract_trace_state(&c).is_none());
}

#[test]
fn no_active_context_writes_nothing() {
    let mut c = Carrier::new();
    inject_active_context(None, Some(b"vendor=1".to_vec()), &mut c);
    assert!(c.get(b"traceparent").is_none());
    assert!(c.get(b"tracestate").is_none());

    let valid = TraceContext::new(7, 8, 1).expect("valid");
    inject_active_context(Some(&valid), None, &mut c);
    let back = extract_context(&c).expect("an active context is injected");
    assert_eq!(back.trace_id, 7);
    assert_eq!(back.span_id, 8);
}

#[test]
fn malformed_header_means_no_context() {
    let mut c = Carrier::new();
    c.set(b"traceparent".to_vec(), b"not a traceparent value".to_vec());
    assert!(extract_context(&c).is_none());
}

#[test]
fn other_headers_are_not_read_as_context() {
    let mut c = Carrier::new();
    c.set(
        b"tracestate".to_vec(),
        b"00-4bf92f3577b34da6a3ce929d0e0e4736-00f067aa0ba902b7-01".to_vec(),
    );
    assert!(extract_context(&c).is_none());
}
