//! The identity of a distributed operation: trace id, span id and flags.

use vstd::prelude::*;

verus! {

/// Identifies one position in a distributed trace. A context is valid
/// only when neither identifier is all-zero.
#[derive(Clone, Copy, PartialEq, Eq, Structural, Debug)]
pub struct TraceContext {
    /// 16-byte trace identifier, shared by every span of one trace.
    pub trace_id: u128,
    /// 8-byte span identifier, unique within the trace.
    pub span_id: u64,
    /// Bit set; bit 0 means "sampled".
    pub trace_flags: u8,
}

impl TraceContext {
    /// A context is valid when neither identifier is all-zero.
    pub open spec fn is_valid(self) -> bool {
        self.trace_id != 0 && self.span_id != 0
    }

    /// Bit 0 of the flags: whether the trace is sampled.
    pub open spec fn spec_sampled(self) -> bool {
        self.trace_flags & 1 == 1
    }

    /// A valid context, or `None` when either identifier is all-zero.
    pub fn new(trace_id: u128, span_id: u64, trace_flags: u8) -> (r: Option<TraceContext>)
        ensures
            match r {
                Some(c) => trace_id != 0 && span_id != 0 && c == (TraceContext {
                    trace_id,
                    span_id,
                    trace_flags,
                }),
                None => trace_id == 0 || span_id == 0,
            },
    {
        if trace_id != 0 && span_id != 0 {
            Some(TraceContext { trace_id, span_id, trace_flags })
        } else {
            None
        }
    }

    /// Whether neither identifier is all-zero.
    pub fn valid(&self) -> (r: bool)
        ensures
            r == self.is_valid(),
    {
        self.trace_id != 0 && self.span_id != 0
    }

    /// Whether the sampled bit is set.
    pub fn sampled(&self) -> (r: bool)
        ensures
            r == self.spec_sampled(),
    {
        self.trace_flags & 1 == 1
    }
}

} // verus!
