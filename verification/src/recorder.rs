//! The span recorder: the start/end lifecycle of spans, parent-child
//! linkage, and the queue of ended spans awaiting export.
//!
//! A span is recording from the instant it is created and immutable once
//! ended. Mutating an ended span is tolerated as a no-op, never an error;
//! ending an ended span is likewise a no-op, so every span is enqueued
//! for export exactly once.

use vstd::prelude::*;
use crate::context::TraceContext;
use crate::rng::{mint_span_id, mint_trace_id};

verus! {

/// What role a span plays.
#[derive(Clone, Copy, PartialEq, Eq, Structural, Debug)]
pub enum SpanKind {
    Internal,
    Server,
    Client,
}

/// The outcome recorded on a span.
#[derive(Clone, Copy, PartialEq, Eq, Structural, Debug)]
pub enum SpanStatus {
    Unset,
    Okay,
    Error,
}

/// A scalar attribute value.
#[derive(PartialEq, Eq, Debug)]
pub enum AttrValue {
    Int(i64),
    Boolean(bool),
    Text(Vec<u8>),
}

/// A timestamped, named occurrence within a span.
#[derive(PartialEq, Eq, Debug)]
pub struct SpanEvent {
    pub name: Vec<u8>,
    pub time: u64,
    pub attributes: Vec<(Vec<u8>, AttrValue)>,
}

/// One timed, named unit of work within a trace.
#[derive(PartialEq, Eq, Debug)]
pub struct Span {
    pub name: Vec<u8>,
    pub kind: SpanKind,
    /// The context generated when the span started: the parent's trace
    /// id (or a fresh one) and a fresh span id.
    pub context: TraceContext,
    /// The span id of the parent, if the span was started under one.
    pub parent_span_id: Option<u64>,
    pub attributes: Vec<(Vec<u8>, AttrValue)>,
    pub events: Vec<SpanEvent>,
    pub status: SpanStatus,
    pub start_time: u64,
    pub end_time: Option<u64>,
    pub ended: bool,
}

/// Names a span owned by a recorder.
#[derive(Clone, Copy, PartialEq, Eq, Structural, Debug)]
pub struct SpanHandle(pub usize);

/// The span as it is frozen by ending at a given time: end time
/// recorded, everything else kept.
pub open spec fn ended_span(s: Span, now: u64) -> Span {
    Span { ended: true, end_time: Some(now), ..s }
}

/// What ending one span does to a recorder's spans and export queue:
/// an already-ended span is left alone; otherwise the span is frozen
/// and enqueued — once.
pub open spec fn end_transition(spans: Seq<Span>, queue: Seq<usize>, i: int, now: u64) -> (
    Seq<Span>,
    Seq<usize>,
)
    recommends
        0 <= i < spans.len(),
{
    if spans[i].ended {
        (spans, queue)
    } else {
        (spans.update(i, ended_span(spans[i], now)), queue.push(i as usize))
    }
}

/// Ending a span twice enqueues it exactly once: the first end pushes
/// one entry on the export queue, and the second end changes nothing.
pub proof fn lemma_end_span_idempotent(
    spans: Seq<Span>,
    queue: Seq<usize>,
    i: int,
    t1: u64,
    t2: u64,
)
    requires
        0 <= i < spans.len(),
        !spans[i].ended,
    ensures
        ({
            let (s1, q1) = end_transition(spans, queue, i, t1);
            let (s2, q2) = end_transition(s1, q1, i, t2);
            &&& q1 == queue.push(i as usize)
            &&& s2 == s1
            &&& q2 == q1
        }),
{
    let (s1, q1) = end_transition(spans, queue, i, t1);
    assert(s1[i].ended);
}

/// Records spans for one task: owns every span it started and the queue
/// of ended spans awaiting export.
pub struct Recorder {
    pub spans: Vec<Span>,
    pub export_queue: Vec<usize>,
}

impl Recorder {
    /// Every queued index names an ended span, no span is queued twice,
    /// and every recorded span carries a valid context.
    pub open spec fn wf(self) -> bool {
        &&& forall|k: int|
            0 <= k < self.export_queue@.len() ==> (#[trigger] self.export_queue@[k]) < self.spans@.len()
                && self.spans@[self.export_queue@[k] as int].ended
        &&& forall|k1: int, k2: int|
            0 <= k1 < k2 < self.export_queue@.len() ==> #[trigger] self.export_queue@[k1]
                != #[trigger] self.export_queue@[k2]
        &&& forall|i: int|
            0 <= i < self.spans@.len() ==> (#[trigger] self.spans@[i]).context.is_valid()
    }

    /// A recorder with no spans and an empty export queue.
    pub fn new() -> (r: Recorder)
        ensures
            r.wf(),
            r.spans@.len() == 0,
            r.export_queue@.len() == 0,
    {
        Recorder { spans: Vec::new(), export_queue: Vec::new() }
    }

    /// Starts a span. A child started under a parent context inherits
    /// the parent's trace id and flags and records the parent's span id;
    /// without a parent a fresh trace id is minted and the root is
    /// sampled. The new span id is freshly minted; both identifiers are
    /// never all-zero.
    pub fn start_span(
        &mut self,
        name: Vec<u8>,
        kind: SpanKind,
        parent: Option<&TraceContext>,
        now: u64,
    ) -> (h: SpanHandle)
        requires
            old(self).wf(),
            match parent {
                Some(p) => p.is_valid(),
                None => true,
            },
        ensures
            final(self).wf(),
            h.0 == old(self).spans@.len(),
            final(self).spans@.len() == old(self).spans@.len() + 1,
            forall|j: int|
                0 <= j < old(self).spans@.len() ==> final(self).spans@[j] == old(self).spans@[j],
            final(self).export_queue@ == old(self).export_queue@,
            ({
                let s = final(self).spans@.last();
                &&& s.name == name
                &&& s.kind == kind
                &&& s.attributes@.len() == 0
                &&& s.events@.len() == 0
                &&& s.status == SpanStatus::Unset
                &&& s.start_time == now
                &&& s.end_time is None
                &&& !s.ended
                &&& s.context.is_valid()
                &&& match parent {
                    Some(p) => s.context.trace_id == p.trace_id && s.context.trace_flags
                        == p.trace_flags && s.parent_span_id == Some(p.span_id),
                    None => s.parent_span_id is None && s.context.trace_flags == 1,
                }
            }),
    {
        let span_id = mint_span_id();
        let (context, parent_span_id) = match parent {
            Some(p) => (
                TraceContext { trace_id: p.trace_id, span_id, trace_flags: p.trace_flags },
                Some(p.span_id),
            ),
            None => (TraceContext { trace_id: mint_trace_id(), span_id, trace_flags: 1 }, None),
        };
        let h = SpanHandle(self.spans.len());
        self.spans.push(
            Span {
                name,
                kind,
                context,
                parent_span_id,
                attributes: Vec::new(),
                events: Vec::new(),
                status: SpanStatus::Unset,
                start_time: now,
                end_time: None,
                ended: false,
            },
        );
        h
    }

    /// Stamps an attribute on an open span; on an ended span this is a
    /// no-op, not an error.
    pub fn set_attribute(&mut self, h: SpanHandle, key: Vec<u8>, value: AttrValue)
        requires
            old(self).wf(),
            h.0 < old(self).spans@.len(),
        ensures
            final(self).wf(),
            final(self).export_queue@ == old(self).export_queue@,
            final(self).spans@.len() == old(self).spans@.len(),
            forall|j: int|
                0 <= j < old(self).spans@.len() && j != h.0 ==> final(self).spans@[j] == old(
                    self,
                ).spans@[j],
            old(self).spans@[h.0 as int].ended ==> final(self).spans@ == old(self).spans@,
            !old(self).spans@[h.0 as int].ended ==> ({
                let s0 = old(self).spans@[h.0 as int];
                let s1 = final(self).spans@[h.0 as int];
                s1 == (Span { attributes: s1.attributes, ..s0 }) && s1.attributes@
                    == s0.attributes@.push((key, value))
            }),
    {
        let s = &mut self.spans[h.0];
        if !s.ended {
            s.attributes.push((key, value));
        }
        proof {
            if old(self).spans@[h.0 as int].ended {
                assert(final(self).spans@ =~= old(self).spans@);
            }
        }
    }

    /// Adds a timestamped event to an open span; on an ended span this
    /// is a no-op, not an error.
    pub fn add_event(
        &mut self,
        h: SpanHandle,
        name: Vec<u8>,
        time: u64,
        attributes: Vec<(Vec<u8>, AttrValue)>,
    )
        requires
            old(self).wf(),
            h.0 < old(self).spans@.len(),
        ensures
            final(self).wf(),
            final(self).export_queue@ == old(self).export_queue@,
            final(self).spans@.len() == old(self).spans@.len(),
            forall|j: int|
                0 <= j < old(self).spans@.len() && j != h.0 ==> final(self).spans@[j] == old(
                    self,
                ).spans@[j],
            old(self).spans@[h.0 as int].ended ==> final(self).spans@ == old(self).spans@,
            !old(self).spans@[h.0 as int].ended ==> ({
                let s0 = old(self).spans@[h.0 as int];
                let s1 = final(self).spans@[h.0 as int];
                s1 == (Span { events: s1.events, ..s0 }) && s1.events@ == s0.events@.push(
                    SpanEvent { name, time, attributes },
                )
            }),
    {
        let s = &mut self.spans[h.0];
        if !s.ended {
            s.events.push(SpanEvent { name, time, attributes });
        }
        proof {
            if old(self).spans@[h.0 as int].ended {
                assert(final(self).spans@ =~= old(self).spans@);
            }
        }
    }

    /// Sets the status of an open span; on an ended span this is a
    /// no-op, not an error.
    pub fn set_status(&mut self, h: SpanHandle, status: SpanStatus)
        requires
            old(self).wf(),
            h.0 < old(self).spans@.len(),
        ensures
            final(self).wf(),
            final(self).export_queue@ == old(self).export_queue@,
            final(self).spans@.len() == old(self).spans@.len(),
            forall|j: int|
                0 <= j < old(self).spans@.len() && j != h.0 ==> final(self).spans@[j] == old(
                    self,
                ).spans@[j],
            old(self).spans@[h.0 as int].ended ==> final(self).spans@ == old(self).spans@,
            !old(self).spans@[h.0 as int].ended ==> final(self).spans@[h.0 as int] == (Span {
                status,
                ..old(self).spans@[h.0 as int]
            }),
    {
        let s = &mut self.spans[h.0];
        if !s.ended {
            s.status = status;
        }
        proof {
            if old(self).spans@[h.0 as int].ended {
                assert(final(self).spans@ =~= old(self).spans@);
            }
        }
    }

    /// Ends a span: freezes it, records the end time, and enqueues it
    /// for export. Idempotent: ending an already-ended span changes
    /// nothing, so a span is enqueued exactly once.
    pub fn end_span(&mut self, h: SpanHandle, now: u64)
        requires
            old(self).wf(),
            h.0 < old(self).spans@.len(),
        ensures
            final(self).wf(),
            final(self).spans@ == end_transition(
                old(self).spans@,
                old(self).export_queue@,
                h.0 as int,
                now,
            ).0,
            final(self).export_queue@ == end_transition(
                old(self).spans@,
                old(self).export_queue@,
                h.0 as int,
                now,
            ).1,
    {
        let already_ended = self.spans[h.0].ended;
        if !already_ended {
            let s = &mut self.spans[h.0];
            s.ended = true;
            s.end_time = Some(now);
            self.export_queue.push(h.0);
        }
        proof {
            if already_ended {
                assert(final(self).spans@ =~= old(self).spans@);
            } else {
                assert(final(self).spans@ =~= old(self).spans@.update(
                    h.0 as int,
                    ended_span(old(self).spans@[h.0 as int], now),
                ));
            }
        }
    }

    /// Best-effort forced end, for shutdown: every span still open is
    /// ended now and thereby enqueued for export, so a span whose task
    /// was cancelled before ending it is flushed rather than lost.
    /// Spans already ended are left exactly as they were.
    pub fn end_all_spans(&mut self, now: u64)
        requires
            old(self).wf(),
        ensures
            final(self).wf(),
            final(self).spans@.len() == old(self).spans@.len(),
            forall|i: int|
                0 <= i < final(self).spans@.len() ==> (#[trigger] final(self).spans@[i]).ended,
            forall|i: int|
                0 <= i < old(self).spans@.len() && old(self).spans@[i].ended
                    ==> final(self).spans@[i] == old(self).spans@[i],
            forall|i: int|
                0 <= i < old(self).spans@.len() && !old(self).spans@[i].ended
                    ==> final(self).spans@[i] == ended_span(old(self).spans@[i], now),
            old(self).export_queue@.is_prefix_of(final(self).export_queue@),
            forall|i: int|
                0 <= i < old(self).spans@.len() && !old(self).spans@[i].ended ==> exists|k: int|
                    0 <= k < final(self).export_queue@.len() && final(self).export_queue@[k] == i,
    {
        let n = self.spans.len();
        let mut j: usize = 0;
        while j < n
            invariant
                0 <= j <= n,
                self.wf(),
                n == old(self).spans@.len(),
                self.spans@.len() == n,
                forall|i: int| 0 <= i < j ==> (#[trigger] self.spans@[i]).ended,
                forall|i: int| j <= i < n ==> self.spans@[i] == old(self).spans@[i],
                forall|i: int|
                    0 <= i < j && old(self).spans@[i].ended
                        ==> self.spans@[i] == old(self).spans@[i],
                forall|i: int|
                    0 <= i < j && !old(self).spans@[i].ended
                        ==> self.spans@[i] == ended_span(old(self).spans@[i], now),
                old(self).export_queue@.is_prefix_of(self.export_queue@),
                forall|i: int|
                    0 <= i < j && !old(self).spans@[i].ended ==> exists|k: int|
                        0 <= k < self.export_queue@.len() && self.export_queue@[k] == i,
            decreases n - j,
        {
            let ghost queue_before = self.export_queue@;
            self.end_span(SpanHandle(j), now);
            proof {
                if !old(self).spans@[j as int].ended {
                    assert(self.export_queue@ == queue_before.push(j));
                    assert(self.export_queue@[queue_before.len() as int] == j);
                }
                assert forall|i: int|
                    0 <= i < j + 1 && !old(self).spans@[i].ended implies exists|k: int|
                    0 <= k < self.export_queue@.len() && self.export_queue@[k] == i by {
                    if i < j {
                        let k = choose|k: int|
                            0 <= k < queue_before.len() && queue_before[k] == i;
                        assert(self.export_queue@[k] == i);
                    } else {
                        assert(self.export_queue@[queue_before.len() as int] == i);
                    }
                };
            }
            j += 1;
        }
    }

    /// Hands out the indices of the spans queued for export, in the
    /// order they ended, and empties the queue; the spans themselves
    /// stay with the recorder.
    pub fn drain_queue(&mut self) -> (batch: Vec<usize>)
        requires
            old(self).wf(),
        ensures
            final(self).wf(),
            batch@ == old(self).export_queue@,
            final(self).export_queue@.len() == 0,
            final(self).spans@ == old(self).spans@,
    {
        let mut batch: Vec<usize> = Vec::new();
        core::mem::swap(&mut batch, &mut self.export_queue);
        batch
    }
}

} // verus!
