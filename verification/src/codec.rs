//! The `traceparent` wire format:
//! `{version:2 hex}-{trace_id:32 hex}-{span_id:16 hex}-{flags:2 hex}`,
//! 55 bytes in all, version fixed at `00`.

use vstd::prelude::*;
use vstd::slice::slice_subrange;
use crate::context::TraceContext;
use crate::hex::{
    all_hex, encode_hex_field, hex_encode, hex_seq_val, lemma_hex_encode_len,
    lemma_hex_round_trip, lemma_hex_seq_val_bound, lemma_pow16_values, parse_hex_field, pow16,
};

verus! {

/// ASCII hyphen, the field separator of the wire format.
pub open spec fn dash() -> u8 {
    0x2d
}

/// The canonical serialized form of a context: version `00`, then the
/// trace id, span id and flags fields in lowercase hexadecimal,
/// separated by hyphens.
pub open spec fn spec_traceparent(c: TraceContext) -> Seq<u8> {
    seq![0x30u8, 0x30u8, dash()] + hex_encode(c.trace_id as nat, 32) + seq![dash()] + hex_encode(
        c.span_id as nat,
        16,
    ) + seq![dash()] + hex_encode(c.trace_flags as nat, 2)
}

/// A header value is well-formed when it is exactly 55 bytes long,
/// its version field is `00`, its separators are hyphens, its three
/// remaining fields are hexadecimal, and neither identifier is all-zero.
pub open spec fn traceparent_ok(s: Seq<u8>) -> bool {
    &&& s.len() == 55
    &&& s[0] == 0x30
    &&& s[1] == 0x30
    &&& s[2] == dash()
    &&& s[35] == dash()
    &&& s[52] == dash()
    &&& all_hex(s.subrange(3, 35))
    &&& all_hex(s.subrange(36, 52))
    &&& all_hex(s.subrange(53, 55))
    &&& hex_seq_val(s.subrange(3, 35)) != 0
    &&& hex_seq_val(s.subrange(36, 52)) != 0
}

/// The context carried by a well-formed header value; `None` for any
/// other byte string.
pub open spec fn spec_parse_traceparent(s: Seq<u8>) -> Option<TraceContext> {
    if traceparent_ok(s) {
        Some(
            TraceContext {
                trace_id: hex_seq_val(s.subrange(3, 35)) as u128,
                span_id: hex_seq_val(s.subrange(36, 52)) as u64,
                trace_flags: hex_seq_val(s.subrange(53, 55)) as u8,
            },
        )
    } else {
        None
    }
}

/// Serializes a valid context into its canonical header value.
pub fn format_traceparent(c: &TraceContext) -> (r: Vec<u8>)
    ensures
        r@ == spec_traceparent(*c),
        r@.len() == 55,
{
    proof {
        lemma_pow16_values();
        lemma_hex_encode_len(c.trace_id as nat, 32);
        lemma_hex_encode_len(c.span_id as nat, 16);
        lemma_hex_encode_len(c.trace_flags as nat, 2);
    }
    let mut out: Vec<u8> = Vec::new();
    out.push(0x30);
    out.push(0x30);
    out.push(0x2d);
    let mut trace_field = encode_hex_field(c.trace_id, 32);
    out.append(&mut trace_field);
    out.push(0x2d);
    let mut span_field = encode_hex_field(c.span_id as u128, 16);
    out.append(&mut span_field);
    out.push(0x2d);
    let mut flags_field = encode_hex_field(c.trace_flags as u128, 2);
    out.append(&mut flags_field);
    proof {
        assert(out@ =~= spec_traceparent(*c));
    }
    out
}

/// Parses a header value; yields the carried context exactly when the
/// value is well-formed, and `None` otherwise — never a partial value.
pub fn parse_traceparent(s: &[u8]) -> (r: Option<TraceContext>)
    ensures
        r == spec_parse_traceparent(s@),
        r is Some ==> r.unwrap().is_valid(),
{
    if s.len() != 55 {
        return None;
    }
    if !(s[0] == 0x30 && s[1] == 0x30 && s[2] == 0x2d && s[35] == 0x2d && s[52] == 0x2d) {
        return None;
    }
    let trace_field = slice_subrange(s, 3, 35);
    let span_field = slice_subrange(s, 36, 52);
    let flags_field = slice_subrange(s, 53, 55);
    let trace_id = match parse_hex_field(trace_field) {
        Some(v) => v,
        None => {
            return None;
        },
    };
    let span_id_wide = match parse_hex_field(span_field) {
        Some(v) => v,
        None => {
            return None;
        },
    };
    let flags_wide = match parse_hex_field(flags_field) {
        Some(v) => v,
        None => {
            return None;
        },
    };
    if trace_id == 0 || span_id_wide == 0 {
        return None;
    }
    proof {
        lemma_hex_seq_val_bound(span_field@);
        lemma_hex_seq_val_bound(flags_field@);
        lemma_pow16_values();
    }
    let span_id = span_id_wide as u64;
    let trace_flags = flags_wide as u8;
    Some(TraceContext { trace_id, span_id, trace_flags })
}

/// Round trip: parsing the canonical serialization of any valid context
/// gives that context back.
pub proof fn lemma_traceparent_round_trip(c: TraceContext)
    requires
        c.is_valid(),
    ensures
        spec_parse_traceparent(spec_traceparent(c)) == Some(c),
{
    lemma_pow16_values();
    lemma_hex_encode_len(c.trace_id as nat, 32);
    lemma_hex_encode_len(c.span_id as nat, 16);
    lemma_hex_encode_len(c.trace_flags as nat, 2);
    let s = spec_traceparent(c);
    assert(s.subrange(3, 35) =~= hex_encode(c.trace_id as nat, 32));
    assert(s.subrange(36, 52) =~= hex_encode(c.span_id as nat, 16));
    assert(s.subrange(53, 55) =~= hex_encode(c.trace_flags as nat, 2));
    lemma_hex_round_trip(c.trace_id as nat, 32);
    lemma_hex_round_trip(c.span_id as nat, 16);
    lemma_hex_round_trip(c.trace_flags as nat, 2);
}

} // verus!
