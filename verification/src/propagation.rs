//! Context extractor and injector: the stateless strategy that moves a
//! serialized context through a carrier under the canonical keys
//! `traceparent` and `tracestate`.

use vstd::prelude::*;
use crate::carrier::{seq_get, Carrier};
use crate::codec::{
    format_traceparent, lemma_traceparent_round_trip, parse_traceparent, spec_parse_traceparent,
    spec_traceparent,
};
use crate::context::TraceContext;

verus! {

/// The bytes of the canonical header key `traceparent`.
pub open spec fn spec_traceparent_key() -> Seq<u8> {
    seq![0x74u8, 0x72u8, 0x61u8, 0x63u8, 0x65u8, 0x70u8, 0x61u8, 0x72u8, 0x65u8, 0x6eu8, 0x74u8]
}

/// The bytes of the companion header key `tracestate`.
pub open spec fn spec_tracestate_key() -> Seq<u8> {
    seq![0x74u8, 0x72u8, 0x61u8, 0x63u8, 0x65u8, 0x73u8, 0x74u8, 0x61u8, 0x74u8, 0x65u8]
}

/// The canonical header key `traceparent`.
pub fn traceparent_key() -> (r: Vec<u8>)
    ensures
        r@ == spec_traceparent_key(),
{
    let mut r: Vec<u8> = Vec::new();
    r.push(0x74);
    r.push(0x72);
    r.push(0x61);
    r.push(0x63);
    r.push(0x65);
    r.push(0x70);
    r.push(0x61);
    r.push(0x72);
    r.push(0x65);
    r.push(0x6e);
    r.push(0x74);
    proof {
        assert(r@ =~= spec_traceparent_key());
    }
    r
}

/// The companion header key `tracestate`.
pub fn tracestate_key() -> (r: Vec<u8>)
    ensures
        r@ == spec_tracestate_key(),
{
    let mut r: Vec<u8> = Vec::new();
    r.push(0x74);
    r.push(0x72);
    r.push(0x61);
    r.push(0x63);
    r.push(0x65);
    r.push(0x73);
    r.push(0x74);
    r.push(0x61);
    r.push(0x74);
    r.push(0x65);
    proof {
        assert(r@ =~= spec_tracestate_key());
    }
    r
}

/// The context a carrier yields: the one carried by a well-formed
/// `traceparent` value, and none when the key is absent or its value
/// malformed.
pub open spec fn spec_extract(m: Seq<(Seq<u8>, Seq<u8>)>) -> Option<TraceContext> {
    match seq_get(m, spec_traceparent_key()) {
        None => None,
        Some(v) => spec_parse_traceparent(v),
    }
}

/// The vendor trace-state a carrier yields: the raw `tracestate` value,
/// passed through uninterpreted.
pub open spec fn spec_extract_state(m: Seq<(Seq<u8>, Seq<u8>)>) -> Option<Seq<u8>> {
    seq_get(m, spec_tracestate_key())
}

/// Reconstructs the context a request arrived with. Malformed or absent
/// values degrade to `None` — a fresh root trace — never to a partially
/// valid context.
pub fn extract_context(c: &Carrier) -> (r: Option<TraceContext>)
    ensures
        r == spec_extract(c@),
        r is Some ==> r.unwrap().is_valid(),
{
    let key = traceparent_key();
    match c.get(key.as_slice()) {
        None => None,
        Some(v) => parse_traceparent(v.as_slice()),
    }
}

/// The raw vendor trace-state of the request, if any: passed through
/// unmodified and not interpreted.
pub fn extract_trace_state(c: &Carrier) -> (r: Option<&Vec<u8>>)
    ensures
        match r {
            Some(v) => spec_extract_state(c@) == Some(v@),
            None => spec_extract_state(c@) == None::<Seq<u8>>,
        },
{
    let key = tracestate_key();
    c.get(key.as_slice())
}

/// Writes the serialized context (and the vendor trace-state, when one
/// is given) into the carrier under the canonical keys, overwriting any
/// prior values there; every other key keeps its value.
pub fn inject_context(ctx: &TraceContext, trace_state: Option<Vec<u8>>, c: &mut Carrier)
    requires
        ctx.is_valid(),
    ensures
        spec_extract(final(c)@) == Some(*ctx),
        final(c).spec_get(spec_traceparent_key()) == Some(spec_traceparent(*ctx)),
        match trace_state {
            Some(ts) => final(c).spec_get(spec_tracestate_key()) == Some(ts@),
            None => final(c).spec_get(spec_tracestate_key()) == old(c).spec_get(
                spec_tracestate_key(),
            ),
        },
        forall|k: Seq<u8>|
            k != spec_traceparent_key() && k != spec_tracestate_key() ==> final(c).spec_get(k)
                == old(c).spec_get(k),
{
    let header = format_traceparent(ctx);
    c.set(traceparent_key(), header);
    match trace_state {
        Some(ts) => {
            c.set(tracestate_key(), ts);
        },
        None => {},
    }
    proof {
        lemma_traceparent_round_trip(*ctx);
    }
}

/// Injection when a context may be absent: with no active context (or
/// an invalid one) nothing is written — the absence of the header tells
/// the receiving extractor to start a new root trace.
pub fn inject_active_context(
    ctx: Option<&TraceContext>,
    trace_state: Option<Vec<u8>>,
    c: &mut Carrier,
)
    ensures
        match ctx {
            Some(p) => if p.is_valid() {
                spec_extract(final(c)@) == Some(*p) && final(c).spec_get(spec_traceparent_key())
                    == Some(spec_traceparent(*p)) && (match trace_state {
                    Some(ts) => final(c).spec_get(spec_tracestate_key()) == Some(ts@),
                    None => final(c).spec_get(spec_tracestate_key()) == old(c).spec_get(
                        spec_tracestate_key(),
                    ),
                }) && (forall|k: Seq<u8>|
                    k != spec_traceparent_key() && k != spec_tracestate_key()
                        ==> final(c).spec_get(k) == old(c).spec_get(k))
            } else {
                final(c)@ == old(c)@
            },
            None => final(c)@ == old(c)@,
        },
{
    match ctx {
        Some(p) => {
            if p.valid() {
                inject_context(p, trace_state, c);
            }
        },
        None => {},
    }
}

/// Round trip: any carrier whose `traceparent` value is the canonical
/// serialization of a valid context — as `inject_context` leaves it —
/// extracts to that same context: same trace id, span id and flags.
pub proof fn lemma_inject_extract_round_trip(m: Seq<(Seq<u8>, Seq<u8>)>, c: TraceContext)
    requires
        c.is_valid(),
        seq_get(m, spec_traceparent_key()) == Some(spec_traceparent(c)),
    ensures
        spec_extract(m) == Some(c),
{
    lemma_traceparent_round_trip(c);
}

} // verus!
