use dice_trace::context::TraceContext;
use dice_trace::recorder::{AttrValue, Recorder, SpanKind, SpanStatus};

#[test]
fn child_inherits_trace_id_and_records_parent() {
    let mut rec = Recorder::new();
    let a = rec.start_span(b"a".to_vec(), SpanKind::Server, None, 10);
    let a_ctx = rec.spans[a.0].context;
    let b = rec.start_span(b"b".to_vec(), SpanKind::Internal, Some(&a_ctx), 11);
    let b_span = &rec.spans[b.0];
    assert_eq!(b_span.context.trace_id, a_ctx.trace_id);
    assert_eq!(b_span.parent_span_id, Some(a_ctx.span_id));
    assert_eq!(b_span.context.trace_flags, a_ctx.trace_flags);
}

#[test]
fn remote_context_parents_like_a_local_one() {
    let remote = TraceContext::new(0x4bf92f3577b34da6a3ce929d0e0e4736, 0x00f067aa0ba902b7, 0x01)
        .expect("valid");
    let mut rec = Recorder::new();
    let h = rec.start_span(b"server".to_vec(), SpanKind::Server, Some(&remote), 5);
    let s = &rec.spans[h.0];
    assert_eq!(s.context.trace_id, remote.trace_id);
    assert_eq!(s.parent_span_id, Some(remote.span_id));
    assert_eq!(s.context.trace_flags, 0x01);
}

#[test]
fn ending_twice_enqueues_exactly_once() {
    let mut rec = Recorder::new();
    let h = rec.start_span(b"once".to_vec(), SpanKind::Internal, None, 1);
    rec.end_span(h, 2);
    assert_eq!(rec.export_queue.len(), 1);
    rec.end_span(h, 3);
    assert_eq!(rec.export_queue.len(), 1);
    assert_eq!(rec.export_queue[0], h.0);
    assert_eq!(rec.spans[h.0].end_time, Some(2));
}

#[test]
fn mutating_an_ended_span_is_ignored() {
    let mut rec = Recorder::new();
    let h = rec.start_span(b"frozen".to_vec(), SpanKind::Internal, None, 1);
    rec.set_attribute(h, b"before".to_vec(), AttrValue::Int(1));
    rec.end_span(h, 2);
    rec.set_attribute(h, b"after".to_vec(), AttrValue::Int(2));
    rec.add_event(h, b"late".to_vec(), 3, Vec::new());
    rec.set_status(h, SpanStatus::Error);
    let s = &rec.spans[h.0];
    assert_eq!(s.attributes.len(), 1);
    assert_eq!(s.attributes[0].0.as_slice(), b"before");
    assert_eq!(s.events.len(), 0);
    assert_eq!(s.status, SpanStatus::Unset);
}

#[test]
fn open_span_records_attributes_events_and_status() {
    let mut rec = Recorder::new();
    let h = rec.start_span(b"open".to_vec(), SpanKind::Client, None, 1);
    rec.set_attribute(h, b"k".to_vec(), AttrValue::Text(b"v".to_vec()));
    rec.add_event(h, b"happened".to_vec(), 2, vec![(b"n".to_vec(), AttrValue::Boolean(true))]);
    rec.set_status(h, SpanStatus::Okay);
    let s = &rec.spans[h.0];
    assert_eq!(s.attributes.len(), 1);
    assert_eq!(s.attributes[0].1, AttrValue::Text(b"v".to_vec()));
    assert_eq!(s.events.len(), 1);
    assert_eq!(s.events[0].name.as_slice(), b"happened");
    assert_eq!(s.events[0].time, 2);
    assert_eq!(s.status, SpanStatus::Okay);
    assert!(!s.ended);
    assert_eq!(s.start_time, 1);
    assert_eq!(s.end_time, None);
}

#[test]
fn root_spans_mint_fresh_nonzero_trace_ids() {
    let mut rec = Recorder::new();
    let a = rec.start_span(b"a".to_vec(), SpanKind::Server, None, 1);
    let b = rec.start_span(b"b".to_vec(), SpanKind::Server, None, 2);
    let a_span = &rec.spans[a.0];
    let b_span = &rec.spans[b.0];
    assert_ne!(a_span.context.trace_id, 0);
    assert_ne!(b_span.context.trace_id, 0);
    assert_ne!(a_span.context.span_id, 0);
    assert_ne!(b_span.context.span_id, 0);
    assert_eq!(a_span.parent_span_id, None);
    // 128-bit random identifiers: a collision is negligible.
    assert_ne!(a_span.context.trace_id, b_span.context.trace_id);
    // roots are sampled
    assert_eq!(a_span.context.trace_flags, 1);
}

#[test]
fn shutdown_force_ends_open_spans() {
    let mut rec = Recorder::new();
    let done = rec.start_span(b"done".to_vec(), SpanKind::Internal, None, 1);
    let open = rec.start_span(b"open".to_vec(), SpanKind::Internal, None, 2);
    rec.end_span(done, 3);
    rec.end_all_spans(9);
    assert!(rec.spans[done.0].ended);
    assert!(rec.spans[open.0].ended);
    // the span that had ended keeps its end time; the open one is frozen now
    assert_eq!(rec.spans[done.0].end_time, Some(3));
    assert_eq!(rec.spans[open.0].end_time, Some(9));
    // each span is enqueued exactly once
    assert_eq!(rec.export_queue, vec![done.0, open.0]);
}

#[test]
fn drain_queue_hands_out_ended_spans_in_order() {
    let mut rec = Recorder::new();
    let a = rec.start_span(b"a".to_vec(), SpanKind::Internal, None, 1);
    let b = rec.start_span(b"b".to_vec(), SpanKind::Internal, None, 1);
    rec.end_span(b, 2);
    rec.end_span(a, 3);
    let batch = rec.drain_queue();
    assert_eq!(batch, vec![b.0, a.0]);
    assert_eq!(rec.export_queue.len(), 0);
    assert_eq!(rec.spans.len(), 2);
    let again = rec.drain_queue();
    assert!(again.is_empty());
}
