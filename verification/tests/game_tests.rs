use dice_trace::carrier::Carrier;
use dice_trace::game::{
    client_call_begin, client_call_finish, guess_wins, handle_request, parse_continue, parse_guess,
    route_request, InputError, Route,
};
use dice_trace::propagation::extract_context;
use dice_trace::recorder::{AttrValue, Recorder, SpanKind};

const SAMPLE: &[u8] = b"00-4bf92f3577b34da6a3ce929d0e0e4736-00f067aa0ba902b7-01";

#[test]
fn routing() {
    assert_eq!(route_request(b"GET", b"/rolldice"), Route::RollDice);
    assert_eq!(route_request(b"POST", b"/rolldice"), Route::NotFound);
    assert_eq!(route_request(b"GET", b"/"), Route::NotFound);
    assert_eq!(route_request(b"GET", b"/rolldicex"), Route::NotFound);
    assert_eq!(route_request(b"get", b"/rolldice"), Route::NotFound);
}

#[test]
fn rolldice_request_rolls_and_traces() {
    let mut rec = Recorder::new();
    let mut headers = Carrier::new();
    headers.set(b"traceparent".to_vec(), SAMPLE.to_vec());
    let resp = handle_request(&mut rec, b"GET", b"/rolldice", &headers, 42);

    assert_eq!(resp.status, 200);
    assert_eq!(resp.body.len(), 1);
    let digit = resp.body[0];
    assert!((b'1'..=b'6').contains(&digit));

    assert_eq!(rec.spans.len(), 2);
    let server = &rec.spans[0];
    let dice = &rec.spans[1];
    assert_eq!(server.name.as_slice(), b"GET /rolldice");
    assert_eq!(server.kind, SpanKind::Server);
    assert_eq!(server.context.trace_id, 0x4bf92f3577b34da6a3ce929d0e0e4736);
    assert_eq!(server.parent_span_id, Some(0x00f067aa0ba902b7));
    assert!(server.ended);
    assert_eq!(server.end_time, Some(42));

    assert_eq!(dice.name.as_slice(), b"rolldice");
    assert_eq!(dice.kind, SpanKind::Internal);
    assert_eq!(dice.context.trace_id, server.context.trace_id);
    assert_eq!(dice.parent_span_id, Some(server.context.span_id));
    assert_eq!(dice.events.len(), 1);
    assert_eq!(dice.events[0].name.as_slice(), b"We did it");
    assert_eq!(dice.attributes.len(), 1);
    assert_eq!(dice.attributes[0].0.as_slice(), b"dice_roll");
    assert_eq!(dice.attributes[0].1, AttrValue::Int((digit - b'0') as i64));

    // the dice span ended first, the server span second; one entry each
    assert_eq!(rec.export_queue, vec![1, 0]);
}

#[test]
fn unknown_path_answers_not_found() {
    let mut rec = Recorder::new();
    let headers = Carrier::new();
    let resp = handle_request(&mut rec, b"GET", b"/other", &headers, 7);
    assert_eq!(resp.status, 404);
    assert!(resp.body.is_empty());
    assert_eq!(rec.spans.len(), 1);
    let server = &rec.spans[0];
    assert_eq!(server.name.as_slice(), b"GET /other");
    assert_eq!(server.attributes.len(), 1);
    assert_eq!(server.attributes[0].0.as_slice(), b"http.response.status_code");
    assert_eq!(server.attributes[0].1, AttrValue::Int(404));
    assert_eq!(rec.export_queue, vec![0]);
}

#[test]
fn request_without_header_starts_a_fresh_root_trace() {
    let mut rec = Recorder::new();
    let headers = Carrier::new();
    handle_request(&mut rec, b"GET", b"/rolldice", &headers, 1);
    let first_trace = rec.spans[0].context.trace_id;
    assert_ne!(first_trace, 0);
    assert_eq!(rec.spans[0].parent_span_id, None);

    let mut rec2 = Recorder::new();
    handle_request(&mut rec2, b"GET", b"/rolldice", &headers, 2);
    // freshly minted 128-bit ids: a collision is negligible
    assert_ne!(rec2.spans[0].context.trace_id, first_trace);
}

#[test]
fn client_call_injects_its_own_context() {
    let mut rec = Recorder::new();
    let game = rec.start_span(b"game_span".to_vec(), SpanKind::Internal, None, 1);
    let game_ctx = rec.spans[game.0].context;
    let mut headers = Carrier::new();
    let call = client_call_begin(&mut rec, Some(&game_ctx), None, &mut headers, 2);

    let span = &rec.spans[call.0];
    assert_eq!(span.name.as_slice(), b"get_random_number_from_server");
    assert_eq!(span.kind, SpanKind::Client);
    assert_eq!(span.context.trace_id, game_ctx.trace_id);
    assert_eq!(span.parent_span_id, Some(game_ctx.span_id));

    let carried = extract_context(&headers).expect("the call's context was injected");
    assert_eq!(carried.trace_id, span.context.trace_id);
    assert_eq!(carried.span_id, span.context.span_id);
    assert_eq!(carried.trace_flags, span.context.trace_flags);

    let roll = client_call_finish(&mut rec, call, b"4", 3);
    assert_eq!(roll, Some(4));
    assert!(rec.spans[call.0].ended);
    assert_eq!(rec.export_queue, vec![call.0]);

    // a second end changes nothing
    client_call_finish(&mut rec, call, b"9", 4);
    assert_eq!(rec.export_queue, vec![call.0]);
    assert_eq!(rec.spans[call.0].end_time, Some(3));
}

#[test]
fn client_call_rejects_a_non_numeric_body() {
    let mut rec = Recorder::new();
    let mut headers = Carrier::new();
    let call = client_call_begin(&mut rec, None, None, &mut headers, 1);
    assert_eq!(client_call_finish(&mut rec, call, b"not a number", 2), None);
}

#[test]
fn guesses_are_parsed_as_the_console_reads_them() {
    assert_eq!(parse_guess(b"3\n"), Ok(3));
    assert_eq!(parse_guess(b" 6 "), Ok(6));
    assert_eq!(parse_guess(b"+2"), Ok(2));
    assert_eq!(parse_guess(b"001"), Ok(1));
    assert_eq!(parse_guess(b"0"), Err(InputError::OutOfRange));
    assert_eq!(parse_guess(b"7"), Err(InputError::OutOfRange));
    assert_eq!(parse_guess(b"4294967295"), Err(InputError::OutOfRange));
    assert_eq!(parse_guess(b"4294967296"), Err(InputError::InvalidInput));
    assert_eq!(parse_guess(b"abc"), Err(InputError::InvalidInput));
    assert_eq!(parse_guess(b""), Err(InputError::InvalidInput));
    assert_eq!(parse_guess(b"  \n"), Err(InputError::InvalidInput));
    assert_eq!(parse_guess(b"-1"), Err(InputError::InvalidInput));
    assert_eq!(parse_guess(b"2 3"), Err(InputError::InvalidInput));
}

#[test]
fn continue_answers_are_y_or_n_in_either_case() {
    assert_eq!(parse_continue(b"y\n"), Ok(true));
    assert_eq!(parse_continue(b"Y"), Ok(true));
    assert_eq!(parse_continue(b" n "), Ok(false));
    assert_eq!(parse_continue(b"N\n"), Ok(false));
    assert_eq!(parse_continue(b"x"), Err(InputError::InvalidInput));
    assert_eq!(parse_continue(b"yes"), Err(InputError::InvalidInput));
    assert_eq!(parse_continue(b""), Err(InputError::InvalidInput));
}

#[test]
fn error_messages_match_the_prompts() {
    assert_eq!(InputError::OutOfRange.message(), "Number out of Range");
    assert_eq!(InputError::InvalidInput.message(), "Invalid Character");
}

#[test]
fn the_win_rule_is_equality() {
    assert!(guess_wins(4, 4));
    assert!(!guess_wins(3, 4));
}
