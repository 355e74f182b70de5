//! The dice game's logic: request routing, the traced dice-roll
//! handler, the traced client call, and the console-input rules.

use vstd::prelude::*;
use crate::carrier::Carrier;
use crate::context::TraceContext;
use crate::codec::spec_traceparent;
use crate::propagation::{extract_context, inject_context, spec_extract, spec_traceparent_key,
    spec_tracestate_key};
use crate::recorder::{end_transition, AttrValue, Recorder, SpanHandle, SpanKind, SpanStatus};
use crate::rng::random_die_roll;
use crate::text::{parse_u32, spec_parse_u32, spec_trim, trim_bytes};

verus! {

/// The bytes of the span name `rolldice`.
pub open spec fn spec_rolldice_name() -> Seq<u8> {
    seq![0x72u8, 0x6fu8, 0x6cu8, 0x6cu8, 0x64u8, 0x69u8, 0x63u8, 0x65u8]
}

/// The bytes of the event name `We did it`.
pub open spec fn spec_roll_event_name() -> Seq<u8> {
    seq![0x57u8, 0x65u8, 0x20u8, 0x64u8, 0x69u8, 0x64u8, 0x20u8, 0x69u8, 0x74u8]
}

/// The bytes of the attribute key `dice_roll`.
pub open spec fn spec_dice_roll_key() -> Seq<u8> {
    seq![0x64u8, 0x69u8, 0x63u8, 0x65u8, 0x5fu8, 0x72u8, 0x6fu8, 0x6cu8, 0x6cu8]
}

/// The bytes of the attribute key `http.response.status_code`.
pub open spec fn spec_http_status_key() -> Seq<u8> {
    seq![0x68u8, 0x74u8, 0x74u8, 0x70u8, 0x2eu8, 0x72u8, 0x65u8, 0x73u8, 0x70u8, 0x6fu8, 0x6eu8,
        0x73u8, 0x65u8, 0x2eu8, 0x73u8, 0x74u8, 0x61u8, 0x74u8, 0x75u8, 0x73u8, 0x5fu8, 0x63u8,
        0x6fu8, 0x64u8, 0x65u8]
}

/// The bytes of the client span name `get_random_number_from_server`.
pub open spec fn spec_client_span_name() -> Seq<u8> {
    seq![0x67u8, 0x65u8, 0x74u8, 0x5fu8, 0x72u8, 0x61u8, 0x6eu8, 0x64u8, 0x6fu8, 0x6du8, 0x5fu8,
        0x6eu8, 0x75u8, 0x6du8, 0x62u8, 0x65u8, 0x72u8, 0x5fu8, 0x66u8, 0x72u8, 0x6fu8, 0x6du8,
        0x5fu8, 0x73u8, 0x65u8, 0x72u8, 0x76u8, 0x65u8, 0x72u8]
}

/// The span name `rolldice`.
pub fn rolldice_name() -> (r: Vec<u8>)
    ensures
        r@ == spec_rolldice_name(),
{
    let mut r: Vec<u8> = Vec::new();
    r.push(0x72);
    r.push(0x6f);
    r.push(0x6c);
    r.push(0x6c);
    r.push(0x64);
    r.push(0x69);
    r.push(0x63);
    r.push(0x65);
    proof {
        assert(r@ =~= spec_rolldice_name());
    }
    r
}

/// The event name `We did it`.
pub fn roll_event_name() -> (r: Vec<u8>)
    ensures
        r@ == spec_roll_event_name(),
{
    let mut r: Vec<u8> = Vec::new();
    r.push(0x57);
    r.push(0x65);
    r.push(0x20);
    r.push(0x64);
    r.push(0x69);
    r.push(0x64);
    r.push(0x20);
    r.push(0x69);
    r.push(0x74);
    proof {
        assert(r@ =~= spec_roll_event_name());
    }
    r
}

/// The attribute key `dice_roll`.
pub fn dice_roll_key() -> (r: Vec<u8>)
    ensures
        r@ == spec_dice_roll_key(),
{
    let mut r: Vec<u8> = Vec::new();
    r.push(0x64);
    r.push(0x69);
    r.push(0x63);
    r.push(0x65);
    r.push(0x5f);
    r.push(0x72);
    r.push(0x6f);
    r.push(0x6c);
    r.push(0x6c);
    proof {
        assert(r@ =~= spec_dice_roll_key());
    }
    r
}

/// The attribute key `http.response.status_code`.
pub fn http_status_key() -> (r: Vec<u8>)
    ensures
        r@ == spec_http_status_key(),
{
    let mut r: Vec<u8> = Vec::new();
    r.push(0x68);
    r.push(0x74);
    r.push(0x74);
    r.push(0x70);
    r.push(0x2e);
    r.push(0x72);
    r.push(0x65);
    r.push(0x73);
    r.push(0x70);
    r.push(0x6f);
    r.push(0x6e);
    r.push(0x73);
    r.push(0x65);
    r.push(0x2e);
    r.push(0x73);
    r.push(0x74);
    r.push(0x61);
    r.push(0x74);
    r.push(0x75);
    r.push(0x73);
    r.push(0x5f);
    r.push(0x63);
    r.push(0x6f);
    r.push(0x64);
    r.push(0x65);
    proof {
        assert(r@ =~= spec_http_status_key());
    }
    r
}

/// The client span name `get_random_number_from_server`.
pub fn client_span_name() -> (r: Vec<u8>)
    ensures
        r@ == spec_client_span_name(),
{
    let mut r: Vec<u8> = Vec::new();
    r.push(0x67);
    r.push(0x65);
    r.push(0x74);
    r.push(0x5f);
    r.push(0x72);
    r.push(0x61);
    r.push(0x6e);
    r.push(0x64);
    r.push(0x6f);
    r.push(0x6d);
    r.push(0x5f);
    r.push(0x6e);
    r.push(0x75);
    r.push(0x6d);
    r.push(0x62);
    r.push(0x65);
    r.push(0x72);
    r.push(0x5f);
    r.push(0x66);
    r.push(0x72);
    r.push(0x6f);
    r.push(0x6d);
    r.push(0x5f);
    r.push(0x73);
    r.push(0x65);
    r.push(0x72);
    r.push(0x76);
    r.push(0x65);
    r.push(0x72);
    proof {
        assert(r@ =~= spec_client_span_name());
    }
    r
}

/// Appends the bytes of a slice to a vector.
pub fn append_bytes(dst: &mut Vec<u8>, src: &[u8])
    ensures
        final(dst)@ == old(dst)@ + src@,
{
    let n = src.len();
    let mut i: usize = 0;
    while i < n
        invariant
            0 <= i <= n,
            n == src@.len(),
            dst@ == old(dst)@ + src@.subrange(0, i as int),
        decreases n - i,
    {
        dst.push(src[i]);
        proof {
            assert(old(dst)@ + src@.subrange(0, i + 1) =~= (old(dst)@ + src@.subrange(
                0,
                i as int,
            )).push(src@[i as int]));
        }
        i += 1;
    }
    proof {
        assert(src@.subrange(0, n as int) =~= src@);
    }
}

/// The name of the span recorded for one request: the method, a space,
/// and the path.
pub fn request_span_name(method: &[u8], path: &[u8]) -> (r: Vec<u8>)
    ensures
        r@ == method@ + seq![0x20u8] + path@,
{
    let mut r: Vec<u8> = Vec::new();
    append_bytes(&mut r, method);
    r.push(0x20);
    append_bytes(&mut r, path);
    proof {
        assert(r@ =~= method@ + seq![0x20u8] + path@);
    }
    r
}

/// Where a request is routed.
#[derive(Clone, Copy, PartialEq, Eq, Structural, Debug)]
pub enum Route {
    RollDice,
    NotFound,
}

/// The method `GET`.
pub open spec fn spec_is_get(m: Seq<u8>) -> bool {
    m.len() == 3 && m[0] == 0x47 && m[1] == 0x45 && m[2] == 0x54
}

/// The path `/rolldice`.
pub open spec fn spec_is_rolldice_path(p: Seq<u8>) -> bool {
    p.len() == 9 && p[0] == 0x2f && p[1] == 0x72 && p[2] == 0x6f && p[3] == 0x6c && p[4] == 0x6c
        && p[5] == 0x64 && p[6] == 0x69 && p[7] == 0x63 && p[8] == 0x65
}

/// A request is routed to the dice roll exactly when it is a GET of
/// `/rolldice`; anything else is not found.
pub open spec fn spec_route(m: Seq<u8>, p: Seq<u8>) -> Route {
    if spec_is_get(m) && spec_is_rolldice_path(p) {
        Route::RollDice
    } else {
        Route::NotFound
    }
}

/// Routes a request by method and path.
pub fn route_request(method: &[u8], path: &[u8]) -> (r: Route)
    ensures
        r == spec_route(method@, path@),
{
    let is_get = method.len() == 3 && method[0] == 0x47 && method[1] == 0x45 && method[2] == 0x54;
    let is_roll = path.len() == 9 && path[0] == 0x2f && path[1] == 0x72 && path[2] == 0x6f
        && path[3] == 0x6c && path[4] == 0x6c && path[5] == 0x64 && path[6] == 0x69 && path[7]
        == 0x63 && path[8] == 0x65;
    if is_get && is_roll {
        Route::RollDice
    } else {
        Route::NotFound
    }
}

/// A response handed back to the HTTP shell: a status code and a body.
#[derive(PartialEq, Eq, Debug)]
pub struct HttpResponse {
    pub status: u16,
    pub body: Vec<u8>,
}

/// Serves one request. A server span named `{method} {path}` is started
/// under the context the headers carry (or as a sampled root when they
/// carry none) and ended. A GET of `/rolldice` rolls the die inside a
/// child span that records the roll as `dice_roll` and one `We did it`
/// event, and answers 200 with the roll as one digit; any other request
/// answers 404 and stamps the status code on the server span. Both
/// outcomes enqueue every span they end exactly once.
pub fn handle_request(
    rec: &mut Recorder,
    method: &[u8],
    path: &[u8],
    headers: &Carrier,
    now: u64,
) -> (r: HttpResponse)
    requires
        old(rec).wf(),
    ensures
        final(rec).wf(),
        ({
            let n = old(rec).spans@.len() as int;
            let parent = spec_extract(headers@);
            let server = final(rec).spans@[n];
            &&& forall|j: int| 0 <= j < n ==> final(rec).spans@[j] == old(rec).spans@[j]
            &&& server.name@ == method@ + seq![0x20u8] + path@
            &&& server.kind == SpanKind::Server
            &&& server.status == SpanStatus::Unset
            &&& server.start_time == now
            &&& server.ended
            &&& server.end_time == Some(now)
            &&& server.events@.len() == 0
            &&& server.context.is_valid()
            &&& match parent {
                Some(p) => server.context.trace_id == p.trace_id && server.context.trace_flags
                    == p.trace_flags && server.parent_span_id == Some(p.span_id),
                None => server.parent_span_id is None && server.context.trace_flags == 1,
            }
            &&& if spec_route(method@, path@) is RollDice {
                let dice = final(rec).spans@[n + 1];
                &&& final(rec).spans@.len() == n + 2
                &&& server.attributes@.len() == 0
                &&& dice.name@ == spec_rolldice_name()
                &&& dice.kind == SpanKind::Internal
                &&& dice.status == SpanStatus::Unset
                &&& dice.start_time == now
                &&& dice.ended
                &&& dice.end_time == Some(now)
                &&& dice.context.trace_id == server.context.trace_id
                &&& dice.context.trace_flags == server.context.trace_flags
                &&& dice.parent_span_id == Some(server.context.span_id)
                &&& dice.events@.len() == 1
                &&& dice.events@[0].name@ == spec_roll_event_name()
                &&& dice.events@[0].time == now
                &&& dice.events@[0].attributes@.len() == 0
                &&& dice.attributes@.len() == 1
                &&& dice.attributes@[0].0@ == spec_dice_roll_key()
                &&& r.status == 200
                &&& r.body@.len() == 1
                &&& 0x31 <= r.body@[0] <= 0x36
                &&& dice.attributes@[0].1 == AttrValue::Int((r.body@[0] - 0x30) as i64)
                &&& final(rec).export_queue@ == old(rec).export_queue@.push((n + 1) as usize).push(
                    n as usize,
                )
            } else {
                &&& final(rec).spans@.len() == n + 1
                &&& server.attributes@.len() == 1
                &&& server.attributes@[0].0@ == spec_http_status_key()
                &&& server.attributes@[0].1 == AttrValue::Int(404)
                &&& r.status == 404
                &&& r.body@.len() == 0
                &&& final(rec).export_queue@ == old(rec).export_queue@.push(n as usize)
            }
        }),
{
    let parent = extract_context(headers);
    let name = request_span_name(method, path);
    let server_h = rec.start_span(name, SpanKind::Server, parent.as_ref(), now);
    match route_request(method, path) {
        Route::RollDice => {
            let server_ctx = rec.spans[server_h.0].context;
            let dice_h = rec.start_span(
                rolldice_name(),
                SpanKind::Internal,
                Some(&server_ctx),
                now,
            );
            rec.add_event(dice_h, roll_event_name(), now, Vec::new());
            let roll = random_die_roll();
            rec.set_attribute(dice_h, dice_roll_key(), AttrValue::Int(roll as i64));
            rec.end_span(dice_h, now);
            rec.end_span(server_h, now);
            let mut body: Vec<u8> = Vec::new();
            body.push(0x30 + (roll as u8));
            HttpResponse { status: 200, body }
        },
        Route::NotFound => {
            rec.set_attribute(server_h, http_status_key(), AttrValue::Int(404));
            rec.end_span(server_h, now);
            HttpResponse { status: 404, body: Vec::new() }
        },
    }
}

/// Starts the client span for one call to the dice server under the
/// given parent, and injects the span's own context (with the vendor
/// trace-state, when one is given) into the outbound headers.
pub fn client_call_begin(
    rec: &mut Recorder,
    parent: Option<&TraceContext>,
    trace_state: Option<Vec<u8>>,
    headers: &mut Carrier,
    now: u64,
) -> (h: SpanHandle)
    requires
        old(rec).wf(),
        match parent {
            Some(p) => p.is_valid(),
            None => true,
        },
    ensures
        final(rec).wf(),
        h.0 == old(rec).spans@.len(),
        final(rec).spans@.len() == old(rec).spans@.len() + 1,
        forall|j: int| 0 <= j < old(rec).spans@.len() ==> final(rec).spans@[j] == old(rec).spans@[j],
        final(rec).export_queue@ == old(rec).export_queue@,
        ({
            let s = final(rec).spans@.last();
            &&& s.name@ == spec_client_span_name()
            &&& s.kind == SpanKind::Client
            &&& s.start_time == now
            &&& !s.ended
            &&& s.context.is_valid()
            &&& match parent {
                Some(p) => s.context.trace_id == p.trace_id && s.context.trace_flags
                    == p.trace_flags && s.parent_span_id == Some(p.span_id),
                None => s.parent_span_id is None && s.context.trace_flags == 1,
            }
            &&& spec_extract(final(headers)@) == Some(s.context)
            &&& final(headers).spec_get(spec_traceparent_key()) == Some(spec_traceparent(s.context))
        }),
        match trace_state {
            Some(ts) => final(headers).spec_get(spec_tracestate_key()) == Some(ts@),
            None => final(headers).spec_get(spec_tracestate_key()) == old(headers).spec_get(
                spec_tracestate_key(),
            ),
        },
        forall|k: Seq<u8>|
            k != spec_traceparent_key() && k != spec_tracestate_key() ==> final(headers).spec_get(k)
                == old(headers).spec_get(k),
{
    let h = rec.start_span(client_span_name(), SpanKind::Client, parent, now);
    let ctx = rec.spans[h.0].context;
    inject_context(&ctx, trace_state, headers);
    h
}

/// Ends the client span and reads the server's answer: the body parsed
/// as a decimal number, `None` when it is not one.
pub fn client_call_finish(rec: &mut Recorder, h: SpanHandle, body: &[u8], now: u64) -> (r: Option<
    u32,
>)
    requires
        old(rec).wf(),
        h.0 < old(rec).spans@.len(),
    ensures
        final(rec).wf(),
        r == spec_parse_u32(body@),
        final(rec).spans@ == end_transition(
            old(rec).spans@,
            old(rec).export_queue@,
            h.0 as int,
            now,
        ).0,
        final(rec).export_queue@ == end_transition(
            old(rec).spans@,
            old(rec).export_queue@,
            h.0 as int,
            now,
        ).1,
{
    let r = parse_u32(body);
    rec.end_span(h, now);
    r
}

/// Why a line of console input was rejected.
#[derive(Clone, Copy, PartialEq, Eq, Structural, Debug)]
pub enum InputError {
    /// A number, but not between 1 and 6.
    OutOfRange,
    /// Not a number, or not a yes/no answer.
    InvalidInput,
}

impl InputError {
    /// The message shown to the player.
    pub fn message(&self) -> (m: &'static str)
        ensures
            match *self {
                InputError::OutOfRange => m@ == "Number out of Range"@,
                InputError::InvalidInput => m@ == "Invalid Character"@,
            },
    {
        match *self {
            InputError::OutOfRange => "Number out of Range",
            InputError::InvalidInput => "Invalid Character",
        }
    }
}

/// The guess a line of input stands for: the line trimmed of ASCII
/// whitespace and read as a decimal number, accepted when it is
/// between 1 and 6.
pub open spec fn spec_parse_guess(s: Seq<u8>) -> Result<u32, InputError> {
    match spec_parse_u32(spec_trim(s)) {
        None => Err(InputError::InvalidInput),
        Some(n) => if 1 <= n <= 6 {
            Ok(n)
        } else {
            Err(InputError::OutOfRange)
        },
    }
}

/// Reads the player's guess from a line of input.
pub fn parse_guess(s: &[u8]) -> (r: Result<u32, InputError>)
    ensures
        r == spec_parse_guess(s@),
{
    let t = trim_bytes(s);
    match parse_u32(t) {
        None => Err(InputError::InvalidInput),
        Some(n) => if 1 <= n && n <= 6 {
            Ok(n)
        } else {
            Err(InputError::OutOfRange)
        },
    }
}

/// The answer a line of input stands for: the line trimmed of ASCII
/// whitespace must be `y` or `n`, in either case.
pub open spec fn spec_parse_continue(s: Seq<u8>) -> Result<bool, InputError> {
    let t = spec_trim(s);
    if t.len() == 1 && (t[0] == 0x79 || t[0] == 0x59) {
        Ok(true)
    } else if t.len() == 1 && (t[0] == 0x6e || t[0] == 0x4e) {
        Ok(false)
    } else {
        Err(InputError::InvalidInput)
    }
}

/// Reads whether the player wants another round from a line of input.
pub fn parse_continue(s: &[u8]) -> (r: Result<bool, InputError>)
    ensures
        r == spec_parse_continue(s@),
{
    let t = trim_bytes(s);
    if t.len() == 1 && (t[0] == 0x79 || t[0] == 0x59) {
        Ok(true)
    } else if t.len() == 1 && (t[0] == 0x6e || t[0] == 0x4e) {
        Ok(false)
    } else {
        Err(InputError::InvalidInput)
    }
}

/// The game's rule: the player wins exactly when the guess equals the
/// server's roll.
pub fn guess_wins(guess: u32, roll: u32) -> (r: bool)
    ensures
        r == (guess == roll),
{
    guess == roll
}

} // verus!
