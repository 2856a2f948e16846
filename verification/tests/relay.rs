use kicad_grok::decoder::DecodeOutcome;
use kicad_grok::relay::OutboundEvent;
use kicad_grok::relay::Relay;
use kicad_grok::relay::RelayState;
use kicad_grok::relay::KEEP_ALIVE_SECONDS;
use kicad_grok::relay::KEEP_ALIVE_TEXT;
use kicad_grok::relay::TERMINAL_MARKER;
use kicad_grok::xai_client::ResponseStatus;
use kicad_grok::xai_client::StreamChoice;
use kicad_grok::xai_client::StreamChunk;
use kicad_grok::xai_client::StreamDelta;

fn text_field(value: &serde_json::Value, name: &str) -> Option<String> {
    value.get(name).and_then(|field| field.as_str()).map(|text| text.to_string())
}

fn parse_chunk(payload: &String) -> Option<StreamChunk> {
    let value: serde_json::Value = serde_json::from_str(payload).ok()?;
    let choices = value.get("choices")?.as_array()?;
    Some(StreamChunk {
        id: text_field(&value, "id"),
        object: text_field(&value, "object"),
        created: value.get("created").and_then(|field| field.as_u64()),
        model: text_field(&value, "model"),
        choices: choices
            .iter()
            .map(|choice| StreamChoice {
                index: None,
                delta: choice.get("delta").filter(|delta| delta.is_object()).map(|delta| {
                    StreamDelta {
                        role: text_field(delta, "role"),
                        content: text_field(delta, "content"),
                    }
                }),
                finish_reason: text_field(choice, "finish_reason"),
            })
            .collect(),
    })
}

enum Arrival<'a> {
    Chunk(&'a [u8]),
    Error(&'a str),
}

fn relay_all(arrivals: &[Arrival]) -> Vec<String> {
    let mut relay = Relay::new();
    let mut sent = Vec::new();
    let mut next = arrivals.iter();
    while relay.state() == RelayState::Streaming {
        let events = match next.next() {
            Some(Arrival::Chunk(bytes)) => relay.on_chunk(bytes, &parse_chunk),
            Some(Arrival::Error(description)) => relay.on_error(description),
            None => relay.on_end(),
        };
        sent.extend(events);
    }
    sent.extend(relay.drain());
    assert_eq!(relay.state(), RelayState::Terminated);
    assert!(relay.drain().is_empty());
    sent.into_iter().map(|event| event.payload).collect()
}

fn content_line(content: &str) -> String {
    format!("data: {{\"choices\":[{{\"delta\":{{\"content\":\"{}\"}}}}]}}\n", content)
}

fn assert_one_terminal_marker_at_the_end(sent: &[String]) {
    assert_eq!(sent.last().map(|text| text.as_str()), Some("[DONE]"));
    assert_eq!(sent.iter().filter(|text| text.as_str() == "[DONE]").count(), 1);
}

#[test]
fn markers_and_keep_alive_policy() {
    assert_eq!(TERMINAL_MARKER, "[DONE]");
    assert_eq!(KEEP_ALIVE_SECONDS, 15);
    assert_eq!(KEEP_ALIVE_TEXT, "keep-alive");
}

#[test]
fn events_carry_their_payloads() {
    assert_eq!(OutboundEvent::content("Hello".to_string()).payload, "Hello");
    assert_eq!(OutboundEvent::error("connection reset").payload, "[ERROR: connection reset]");
    assert_eq!(OutboundEvent::error("").payload, "[ERROR: ]");
    assert_eq!(OutboundEvent::terminal().payload, "[DONE]");
    assert!(OutboundEvent::terminal().is_terminal());
    assert!(!OutboundEvent::error("[DONE]").is_terminal());
    assert!(!OutboundEvent::content("done".to_string()).is_terminal());
    assert!(OutboundEvent::content("[DONE]".to_string()).is_terminal());
}

#[test]
fn normal_completion_relays_content_in_order() {
    let first = content_line("Hel");
    let second = content_line("lo");
    let sent = relay_all(&[
        Arrival::Chunk(first.as_bytes()),
        Arrival::Chunk(second.as_bytes()),
        Arrival::Chunk(b"data: [DONE]\n"),
    ]);
    assert_eq!(sent, vec!["Hel", "lo", "[DONE]"]);
    assert_one_terminal_marker_at_the_end(&sent);
}

#[test]
fn lines_split_over_chunks_are_relayed_once_complete() {
    let line = content_line("whole");
    let bytes = line.as_bytes();
    let sent = relay_all(&[
        Arrival::Chunk(&bytes[..10]),
        Arrival::Chunk(&bytes[10..25]),
        Arrival::Chunk(&bytes[25..]),
        Arrival::Chunk(b"data: [DO"),
        Arrival::Chunk(b"NE]\n"),
    ]);
    assert_eq!(sent, vec!["whole", "[DONE]"]);
}

#[test]
fn several_lines_in_one_chunk_are_relayed_in_order() {
    let chunk = format!(
        "{}\n: comment\n{}{}",
        content_line("a"),
        content_line("b"),
        content_line("c")
    );
    let sent = relay_all(&[Arrival::Chunk(chunk.as_bytes()), Arrival::Chunk(b"data: [DONE]\n")]);
    assert_eq!(sent, vec!["a", "b", "c", "[DONE]"]);
}

#[test]
fn nothing_is_decoded_after_the_terminator() {
    let chunk = format!("{}data: [DONE]\n{}", content_line("before"), content_line("after"));
    let later = content_line("later");
    let sent = relay_all(&[Arrival::Chunk(chunk.as_bytes()), Arrival::Chunk(later.as_bytes())]);
    assert_eq!(sent, vec!["before", "[DONE]"]);
    assert_one_terminal_marker_at_the_end(&sent);
}

#[test]
fn terminated_relay_takes_nothing() {
    let mut relay = Relay::new();
    let events = relay.on_chunk(b"data: [DONE]\n", &parse_chunk);
    assert_eq!(events.len(), 1);
    assert!(events[0].is_terminal());
    assert_eq!(relay.state(), RelayState::Terminated);
    let later = content_line("later");
    assert!(relay.on_chunk(later.as_bytes(), &parse_chunk).is_empty());
    assert!(relay.frame(later.as_bytes()).is_empty());
    assert!(relay.on_line("data: [DONE]", None).is_empty());
    assert!(relay.on_error("late failure").is_empty());
    assert!(relay.on_end().is_empty());
    assert!(relay.drain().is_empty());
    assert_eq!(relay.state(), RelayState::Terminated);
}

#[test]
fn mid_stream_error_is_reported_and_ends_the_stream() {
    let first = content_line("partial");
    let later = content_line("never");
    let sent = relay_all(&[
        Arrival::Chunk(first.as_bytes()),
        Arrival::Error("connection reset by peer"),
        Arrival::Chunk(later.as_bytes()),
    ]);
    assert_eq!(sent, vec!["partial", "[ERROR: connection reset by peer]", "[DONE]"]);
    assert_one_terminal_marker_at_the_end(&sent);
}

#[test]
fn rate_limit_error_is_reported_like_any_other() {
    let sent = relay_all(&[Arrival::Error("RATE LIMITED: XAI API returned 429. Response: slow down")]);
    assert_eq!(
        sent,
        vec!["[ERROR: RATE LIMITED: XAI API returned 429. Response: slow down]", "[DONE]"]
    );
}

#[test]
fn empty_stream_ends_with_the_terminal_marker() {
    let sent = relay_all(&[]);
    assert_eq!(sent, vec!["[DONE]"]);
    assert_one_terminal_marker_at_the_end(&sent);
}

#[test]
fn stream_that_closes_without_terminator_drains() {
    let first = content_line("only");
    let mut relay = Relay::new();
    let mut sent = relay.on_chunk(first.as_bytes(), &parse_chunk);
    sent.extend(relay.on_chunk(b"data: unfinished", &parse_chunk));
    assert_eq!(relay.state(), RelayState::Streaming);
    assert!(relay.on_end().is_empty());
    assert_eq!(relay.state(), RelayState::Draining);
    assert!(relay.on_chunk(b"\n", &parse_chunk).is_empty());
    sent.extend(relay.drain());
    assert_eq!(relay.state(), RelayState::Terminated);
    let payloads: Vec<String> = sent.into_iter().map(|event| event.payload).collect();
    assert_eq!(payloads, vec!["only", "[DONE]"]);
}

#[test]
fn malformed_lines_do_not_end_the_stream() {
    let good = content_line("fine");
    let chunk = format!("data: {{not json\ndata: 17\ndata: {{\"choices\":7}}\n{}", good);
    let sent = relay_all(&[Arrival::Chunk(chunk.as_bytes()), Arrival::Chunk(b"data: [DONE]\n")]);
    assert_eq!(sent, vec!["fine", "[DONE]"]);
}

#[test]
fn deltas_without_content_yield_no_event() {
    let chunk = "data: {\"choices\":[{\"delta\":{\"role\":\"assistant\"}}]}\n\
                 data: {\"choices\":[]}\n\
                 data: {\"choices\":[{\"finish_reason\":\"stop\"}]}\n";
    let sent = relay_all(&[Arrival::Chunk(chunk.as_bytes())]);
    assert_eq!(sent, vec!["[DONE]"]);
}

#[test]
fn empty_content_yields_no_event() {
    let chunk = format!("{}{}{}", content_line("a"), content_line(""), content_line("b"));
    let sent = relay_all(&[Arrival::Chunk(chunk.as_bytes())]);
    assert_eq!(sent, vec!["a", "b", "[DONE]"]);
}

#[test]
fn white_space_content_is_relayed() {
    let chunk = content_line(" ");
    let sent = relay_all(&[Arrival::Chunk(chunk.as_bytes())]);
    assert_eq!(sent, vec![" ", "[DONE]"]);
}

#[test]
fn ignored_lines_yield_no_event_and_keep_the_state() {
    let mut relay = Relay::new();
    assert!(relay.on_line("", None).is_empty());
    assert!(relay.on_line("event: ping", None).is_empty());
    assert!(relay.on_line(": keep-alive", None).is_empty());
    assert!(relay.on_outcome(DecodeOutcome::Ignored).is_empty());
    assert_eq!(relay.state(), RelayState::Streaming);
}

#[test]
fn content_that_reads_like_the_marker_is_relayed_as_content() {
    let looks_done = content_line("[DONE]");
    let sent = relay_all(&[Arrival::Chunk(looks_done.as_bytes()), Arrival::Chunk(b"data: [DONE]\n")]);
    assert_eq!(sent, vec!["[DONE]", "[DONE]"]);
}

#[test]
fn on_line_relays_content_of_the_first_choice() {
    let mut relay = Relay::new();
    let parsed = parse_chunk(&"{\"choices\":[{\"delta\":{\"content\":\"x\"}},{\"delta\":{\"content\":\"y\"}}]}".to_string());
    let events = relay.on_line("data: {}", parsed);
    assert_eq!(events.len(), 1);
    assert_eq!(events[0].payload, "x");
    assert_eq!(relay.state(), RelayState::Streaming);
}

#[test]
fn frame_hands_out_lines_while_streaming() {
    let mut relay = Relay::new();
    assert_eq!(relay.frame(b"data: a\ndata"), vec!["data: a"]);
    assert_eq!(relay.frame(b": b\n"), vec!["data: b"]);
}

#[test]
fn drain_ends_a_stream_that_is_still_read() {
    let mut relay = Relay::new();
    let events = relay.drain();
    assert_eq!(events.len(), 1);
    assert_eq!(events[0].payload, "[DONE]");
    assert_eq!(relay.state(), RelayState::Terminated);
}

fn payloads(events: Vec<OutboundEvent>) -> Vec<String> {
    events.into_iter().map(|event| event.payload).collect()
}

#[test]
fn refused_request_is_reported_and_ends_the_stream() {
    let mut relay = Relay::new();
    let status = ResponseStatus::new(500).expect("a status");
    let sent = payloads(relay.on_status(status, Some("oops")));
    assert_eq!(
        sent,
        vec!["[ERROR: API request failed with status 500 Internal Server Error: oops]", "[DONE]"]
    );
    assert_one_terminal_marker_at_the_end(&sent);
    assert_eq!(relay.state(), RelayState::Terminated);
    assert!(relay.on_chunk(b"data: [DONE]\n", &parse_chunk).is_empty());
    assert!(relay.drain().is_empty());
}

#[test]
fn rate_limited_request_is_reported_and_ends_the_stream() {
    let mut relay = Relay::new();
    let status = ResponseStatus::new(429).expect("a status");
    let sent = payloads(relay.on_status(status, None));
    assert_eq!(
        sent,
        vec!["[ERROR: RATE LIMITED: XAI API returned 429. Response: Unknown error]", "[DONE]"]
    );
    assert_eq!(relay.state(), RelayState::Terminated);
}

#[test]
fn accepted_request_goes_on_streaming() {
    let mut relay = Relay::new();
    let status = ResponseStatus::new(200).expect("a status");
    assert!(relay.on_status(status, None).is_empty());
    assert_eq!(relay.state(), RelayState::Streaming);
    let line = content_line("after");
    assert_eq!(payloads(relay.on_chunk(line.as_bytes(), &parse_chunk)), vec!["after"]);
}

#[test]
fn status_after_the_end_changes_nothing() {
    let mut relay = Relay::new();
    relay.drain();
    let status = ResponseStatus::new(503).expect("a status");
    assert!(relay.on_status(status, Some("late")).is_empty());
    assert_eq!(relay.state(), RelayState::Terminated);
}

#[test]
fn transmittable_payload_has_no_carriage_return() {
    assert_eq!(OutboundEvent::content("a\r\nb\r".to_string()).transmittable(), "a\nb");
    assert_eq!(OutboundEvent::content("\r\r".to_string()).transmittable(), "");
    assert_eq!(OutboundEvent::content("plain".to_string()).transmittable(), "plain");
    assert_eq!(OutboundEvent::terminal().transmittable(), "[DONE]");
    assert_eq!(
        OutboundEvent::error("502 Bad Gateway\r\n<html>").transmittable(),
        "[ERROR: 502 Bad Gateway\n<html>]"
    );
}
