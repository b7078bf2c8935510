use wispr_core::error::WisprError;
use wispr_core::llm::{extract_sse_data, pop_sse_frame, should_retry_non_streaming, truncate_for_error};
use wispr_core::stream::{
    body_is_readable, body_read_error, process_generation_sse_frame, process_sse_frame, response_output_text,
    DecisionStream, GenerationEnd, GenerationStream,
};

fn http_message(e: WisprError) -> String {
    match e {
        WisprError::Http(m) => m,
        other => panic!("expected an HTTP error, got {other:?}"),
    }
}

#[test]
fn frames_are_split_at_blank_lines() {
    let mut buffer = "data: a\r\n\r\ndata: b\n\nrest".to_string();
    assert_eq!(pop_sse_frame(&mut buffer), Some("data: a".to_string()));
    assert_eq!(buffer, "data: b\n\nrest");
    assert_eq!(pop_sse_frame(&mut buffer), Some("data: b".to_string()));
    assert_eq!(buffer, "rest");
    assert_eq!(pop_sse_frame(&mut buffer), None);
    assert_eq!(buffer, "rest");
}

#[test]
fn frame_data_lines_are_joined() {
    assert_eq!(extract_sse_data("event: x\ndata: one\ndata:two"), Some("one\ntwo".to_string()));
    assert_eq!(extract_sse_data("event: x"), None);
}

#[test]
fn decision_frames_accumulate_structured_output() {
    let mut streamed = String::new();
    let mut completion = None;
    let saw = process_sse_frame(
        "data: {\"type\":\"response.output_text.delta\",\"delta\":\"{\\\"kind\\\"\"}",
        &mut streamed,
        &mut completion,
        "",
    )
    .unwrap();
    assert!(saw);
    assert_eq!(streamed, "{\"kind\"");
    assert!(!process_sse_frame("data: [DONE]", &mut streamed, &mut completion, "").unwrap());
    assert!(!process_sse_frame("event: ping", &mut streamed, &mut completion, "").unwrap());
    let saw = process_sse_frame(
        "data: {\"type\":\"response.completed\",\"response\":{\"output\":[{\"content\":[{\"text\":\"done\"}]}]}}",
        &mut streamed,
        &mut completion,
        "",
    )
    .unwrap();
    assert!(saw);
    assert_eq!(completion, Some(Some("done".to_string())));
}

#[test]
fn decision_frames_raise_errors() {
    let mut streamed = String::new();
    let mut completion = None;
    let e = process_sse_frame(
        "data: {\"type\":\"error\",\"error\":{\"message\":\"quota\"}}",
        &mut streamed,
        &mut completion,
        "",
    )
    .unwrap_err();
    assert_eq!(http_message(e), "quota");
    let e = process_sse_frame("data: {\"type\":\"response.failed\"}", &mut streamed, &mut completion, "").unwrap_err();
    assert_eq!(http_message(e), "LLM request failed");
    let e = process_sse_frame("data: not json", &mut streamed, &mut completion, "raw body").unwrap_err();
    let m = http_message(e);
    assert!(m.starts_with("failed to parse streamed response event: "));
    assert!(m.ends_with("; body=raw body"));
}

#[test]
fn done_event_fills_an_empty_stream_only() {
    let mut streamed = String::new();
    let mut completion = None;
    let saw = process_sse_frame("data: {\"type\":\"response.output_text.done\",\"text\":\"all\"}", &mut streamed, &mut completion, "").unwrap();
    assert!(saw);
    assert_eq!(streamed, "all");
    let saw = process_sse_frame("data: {\"type\":\"response.output_text.done\",\"text\":\"again\"}", &mut streamed, &mut completion, "").unwrap();
    assert!(saw);
    assert_eq!(streamed, "all");
}

#[test]
fn decision_stream_reads_chunks_and_finishes() {
    let mut stream = DecisionStream::new();
    stream.push_chunk("data: {\"type\":\"response.output_text.delta\",\"delta\":\"{\\\"a\\\"\"}\n").unwrap();
    assert!(!stream.keeps_partial_output());
    stream.push_chunk("\ndata: {\"type\":\"response.output_text.delta\",\"delta\":\":1}\"}\n\n").unwrap();
    assert!(stream.keeps_partial_output());
    assert_eq!(stream.finish(true, "200 OK").unwrap(), "{\"a\":1}");
}

#[test]
fn decision_stream_falls_back_to_the_completion() {
    let mut stream = DecisionStream::new();
    stream
        .push_chunk("data: {\"type\":\"response.completed\",\"response\":{\"output\":[{\"content\":[{\"text\":\"{}\"}]}]}}\n\n")
        .unwrap();
    assert_eq!(stream.finish(true, "200 OK").unwrap(), "{}");
}

#[test]
fn empty_decision_streams_are_errors() {
    let mut stream = DecisionStream::new();
    assert_eq!(http_message(stream.finish(false, "500 Internal Server Error").unwrap_err()), "HTTP 500 Internal Server Error from LLM backend with empty event stream");
    let mut stream = DecisionStream::new();
    match stream.finish(true, "200 OK") {
        Err(WisprError::InvalidState(m)) => assert_eq!(m, "LLM interpreter returned no structured output"),
        other => panic!("unexpected {other:?}"),
    }
}

#[test]
fn generation_frames_hand_out_deltas() {
    let mut fallback = String::new();
    let mut completion = None;
    let d = process_generation_sse_frame("data: {\"type\":\"response.output_text.delta\",\"delta\":\"Hel\"}", &mut fallback, &mut completion, "").unwrap();
    assert_eq!(d, Some("Hel".to_string()));
    let d = process_generation_sse_frame("data: {\"type\":\"response.output_text.done\",\"text\":\"Hello\"}", &mut fallback, &mut completion, "").unwrap();
    assert_eq!(d, None);
    assert_eq!(fallback, "Hel");
    let e = process_generation_sse_frame("data: {\"type\":\"error\"}", &mut fallback, &mut completion, "").unwrap_err();
    assert_eq!(http_message(e), "LLM generation request failed");
}

#[test]
fn generation_stream_ends_by_what_was_typed() {
    let mut stream = GenerationStream::new();
    let out = stream.push_chunk("data: {\"type\":\"response.output_text.delta\",\"delta\":\"Hi\"}\n\ndata: {\"type\":\"response.output_text.delta\",\"delta\":\" there\"}\n\n");
    assert!(out.error.is_none());
    assert_eq!(out.deltas, vec!["Hi".to_string(), " there".to_string()]);
    assert!(matches!(stream.conclude(true, "200 OK"), Ok(GenerationEnd::Done)));

    let mut stream = GenerationStream::new();
    let out = stream.push_chunk("data: {\"type\":\"response.completed\",\"response\":{\"output\":[{\"content\":[{\"text\":\"Whole\"}]}]}}\n\n");
    assert!(out.deltas.is_empty());
    match stream.conclude(true, "200 OK") {
        Ok(GenerationEnd::Send(t)) => assert_eq!(t, "Whole"),
        _ => panic!("expected the completion's text"),
    }

    let stream = GenerationStream::new();
    assert!(matches!(stream.conclude(true, "200 OK"), Ok(GenerationEnd::RetryNonStreaming)));
    assert_eq!(
        http_message(stream.conclude(false, "502 Bad Gateway").err().unwrap()),
        "HTTP 502 Bad Gateway from LLM backend with empty generation stream"
    );
}

#[test]
fn generation_stream_reports_deltas_before_an_error() {
    let mut stream = GenerationStream::new();
    let out = stream.push_chunk("data: {\"type\":\"response.output_text.delta\",\"delta\":\"a\"}\n\ndata: {\"type\":\"response.failed\",\"message\":\"stop\"}\n\n");
    assert_eq!(out.deltas, vec!["a".to_string()]);
    assert_eq!(http_message(out.error.unwrap()), "stop");
}

#[test]
fn plain_responses_yield_their_output_text() {
    let body = "{\"output\":[{\"content\":[{\"text\":\"{\\\"kind\\\":\\\"literal\\\"}\"}]}]}";
    assert_eq!(response_output_text(true, "200 OK", body, false).unwrap(), "{\"kind\":\"literal\"}");
    assert_eq!(response_output_text(true, "200 OK", "{\"output_text\":\"x\"}", true).unwrap(), "x");
    match response_output_text(true, "200 OK", "{}", true) {
        Err(WisprError::InvalidState(m)) => assert_eq!(m, "LLM backend returned a generation response without output text"),
        other => panic!("unexpected {other:?}"),
    }
    assert_eq!(
        http_message(response_output_text(false, "401 Unauthorized", "nope", false).unwrap_err()),
        "HTTP 401 Unauthorized from LLM backend: nope"
    );
    let m = http_message(response_output_text(true, "200 OK", "<html>", false).unwrap_err());
    assert!(m.starts_with("failed to parse non-streaming response body: "));
    assert!(m.ends_with("; body=<html>"));
}

#[test]
fn long_bodies_are_cut_for_error_messages() {
    let body = "x".repeat(450);
    let cut = truncate_for_error(&body);
    assert_eq!(cut.len(), 403);
    assert!(cut.ends_with("..."));
    assert_eq!(truncate_for_error("short"), "short");
}

#[test]
fn decoding_errors_are_retried_without_streaming() {
    assert!(should_retry_non_streaming(&body_read_error("connection reset")));
    assert!(!should_retry_non_streaming(&WisprError::Http("HTTP 401".to_string())));
    assert!(should_retry_non_streaming(&WisprError::InvalidState("LLM interpreter returned no structured output".to_string())));
}

#[test]
fn streams_refuse_only_cuts_inside_a_character() {
    // Byte 400 falls inside the two bytes of 'é' at bytes 399 and 400.
    let bad_event = format!("data: {}é{{\n\n", "x".repeat(393));
    let comment = format!(": {}é\n\n", "x".repeat(397));
    let decoder = DecisionStream::new();
    assert!(!decoder.accepts(&bad_event));
    assert!(decoder.accepts(&comment));
    let mut decoder = DecisionStream::new();
    assert!(decoder.accepts(&comment));
    decoder.push_chunk(&comment).expect("comments are ignored");
    assert!(decoder.can_drain());
    assert!(decoder.accepts("data: {\"type\":\"error\",\"message\":\"quota\"}\n\n"));
    let generation = GenerationStream::new();
    assert!(!generation.accepts(&bad_event));
    assert!(generation.accepts("data: [DONE]\n\n"));

    let long_body = format!("{}é", "y".repeat(399));
    assert!(!body_is_readable(false, &long_body));
    assert!(!body_is_readable(true, &long_body));
    assert!(body_is_readable(true, &format!("{{\"output_text\":\"{}é\"}}", "y".repeat(383))));
    assert!(body_is_readable(false, "short"));
}

#[test]
fn output_items_are_read_from_arrays_only() {
    // An object keyed "0" is not an array: nothing is read from it.
    let keyed = "{\"output\":{\"0\":{\"content\":[{\"text\":\"x\"}]}}}";
    match response_output_text(true, "200 OK", keyed, true) {
        Err(WisprError::InvalidState(m)) => assert_eq!(m, "LLM backend returned a generation response without output text"),
        other => panic!("unexpected {other:?}"),
    }
    let nested = "{\"output\":[{\"content\":{\"0\":{\"text\":\"x\"}}}],\"output_text\":\"y\"}";
    assert_eq!(response_output_text(true, "200 OK", nested, true).unwrap(), "y");
    let first = "{\"output\":[{\"content\":[{\"text\":\"a\"},{\"text\":\"b\"}]},{\"content\":[{\"text\":\"c\"}]}]}";
    assert_eq!(response_output_text(true, "200 OK", first, true).unwrap(), "a");
}
