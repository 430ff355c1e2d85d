use open_ai_sdk::streaming::sse::{is_done_marker, parse_event, SseAction, SseEvent, SseStream};

#[test]
fn parses_multiline_event() {
    let event =
        parse_event("event: response.output_text.delta\ndata: {\"a\":1}\ndata: {\"b\":2}\n")
            .expect("event");
    assert_eq!(event.event.as_deref(), Some("response.output_text.delta"));
    assert_eq!(event.data, "{\"a\":1}\n{\"b\":2}");
}

#[test]
fn frame_without_data_is_no_event() {
    assert!(parse_event("event: ping\n: comment\n").is_none());
    assert!(parse_event("").is_none());
}

#[test]
fn later_event_name_wins_and_comments_are_ignored() {
    let event = parse_event(": hello\nevent: a\nevent:   b\nretry: 10\ndata:x\n").expect("event");
    assert_eq!(event.event.as_deref(), Some("b"));
    assert_eq!(event.data, "x");
}

#[test]
fn crlf_lines_are_stripped() {
    let event = parse_event("data: one\r\ndata: two\r").expect("event");
    assert_eq!(event.data, "one\ntwo");
    assert_eq!(event.event, None);
}

#[test]
fn empty_data_lines_count() {
    let event = parse_event("data:\ndata:").expect("event");
    assert_eq!(event.data, "\n");
}

fn emitted(a: SseAction) -> SseEvent {
    match a {
        SseAction::Emit(Ok(e)) => e,
        other => panic!("unexpected action: {other:?}"),
    }
}

#[test]
fn stream_frames_events_across_chunks() {
    let mut s = SseStream::new();
    assert!(matches!(s.resume(), SseAction::NeedInput));
    assert!(matches!(s.feed_chunk(b"data: he"), SseAction::NeedInput));
    assert!(matches!(s.feed_chunk(b"llo\n"), SseAction::NeedInput));
    let first = emitted(s.feed_chunk(b"\ndata: two\n\ndata: three\n\n"));
    assert_eq!(first.data, "hello");
    assert_eq!(emitted(s.resume()).data, "two");
    assert_eq!(emitted(s.resume()).data, "three");
    assert!(matches!(s.resume(), SseAction::NeedInput));
    assert!(matches!(s.feed_end(), SseAction::Finished));
    assert!(s.is_finished());
    assert!(matches!(s.resume(), SseAction::Finished));
}

#[test]
fn stream_end_frames_the_rest() {
    let mut s = SseStream::new();
    assert!(matches!(s.feed_chunk(b"event: done\ndata: [DONE]"), SseAction::NeedInput));
    let last = emitted(s.feed_end());
    assert_eq!(last.event.as_deref(), Some("done"));
    assert_eq!(last.data, "[DONE]");
    assert!(last.json_payload().is_none());
    assert!(matches!(s.resume(), SseAction::Finished));
}

#[test]
fn stream_end_with_white_space_is_finished() {
    let mut s = SseStream::new();
    assert!(matches!(s.feed_chunk(b"data: a\n\n \n"), SseAction::Emit(Ok(_))));
    assert!(matches!(s.feed_end(), SseAction::Finished));
}

#[test]
fn invalid_utf8_chunk_is_a_stream_error() {
    let mut s = SseStream::new();
    match s.feed_chunk(&[0x64, 0xff, 0xfe]) {
        SseAction::Emit(Err(open_ai_sdk::sdk_core::error::OpenAIError::Stream(m))) => {
            assert!(!m.is_empty())
        }
        other => panic!("unexpected action: {other:?}"),
    }
    let e = emitted(s.feed_chunk(b"data: ok\n\n"));
    assert_eq!(e.data, "ok");
}

#[test]
fn json_payload_passes_other_data() {
    let e = parse_event("data: {\"x\":1}").expect("event");
    assert_eq!(e.json_payload(), Some("{\"x\":1}"));
}

#[test]
fn non_ascii_chunks_are_decoded() {
    let mut s = SseStream::new();
    let e = emitted(s.feed_chunk("data: héllo\n\n".as_bytes()));
    assert_eq!(e.data, "héllo");
}

#[test]
fn transport_failure_is_an_http_error() {
    let error = reqwest::Client::new()
        .get("not a url")
        .build()
        .expect_err("invalid url");
    let mut s = SseStream::new();
    assert!(matches!(s.feed_chunk(b"data: a"), SseAction::NeedInput));
    match s.feed_error(error) {
        SseAction::Emit(Err(open_ai_sdk::sdk_core::error::OpenAIError::Http(_))) => {}
        other => panic!("unexpected action: {other:?}"),
    }
    assert!(!s.is_finished());
    let last = emitted(s.feed_end());
    assert_eq!(last.data, "a");
}

fn cut(text: &str, at: &[usize]) -> Vec<Vec<u8>> {
    let bytes = text.as_bytes();
    let mut chunks = Vec::new();
    let mut start = 0;
    for &end in at {
        chunks.push(bytes[start..end].to_vec());
        start = end;
    }
    chunks.push(bytes[start..].to_vec());
    chunks
}

#[test]
fn decoded_events_do_not_depend_on_the_cuts() {
    let text = "event: a\ndata: 1\n\n: note\n\ndata: x\ndata: y\n\n\ndata: tail";
    let whole = SseStream::decode_all(&cut(text, &[])).expect("events");
    let expected = vec![
        SseEvent { event: Some("a".to_string()), data: "1".to_string() },
        SseEvent { event: None, data: "x\ny".to_string() },
        SseEvent { event: None, data: "tail".to_string() },
    ];
    assert_eq!(whole, expected);
    for at in [vec![1], vec![9, 10], vec![17, 18, 19, 40], (1..text.len()).collect::<Vec<_>>()] {
        assert_eq!(SseStream::decode_all(&cut(text, &at)).expect("events"), expected);
    }
}

#[test]
fn decode_all_stops_at_invalid_chunk() {
    let chunks = vec![b"data: a\n\n".to_vec(), vec![0xc3], vec![0xa9]];
    match SseStream::decode_all(&chunks) {
        Err(open_ai_sdk::sdk_core::error::OpenAIError::Stream(m)) => assert!(!m.is_empty()),
        other => panic!("unexpected result: {other:?}"),
    }
    let empty: Vec<Vec<u8>> = Vec::new();
    assert_eq!(SseStream::decode_all(&empty).expect("events"), Vec::<SseEvent>::new());
}

#[test]
fn done_marker_is_exact() {
    assert!(is_done_marker("[DONE]"));
    assert!(!is_done_marker("[DONE] "));
    assert!(!is_done_marker("[done]"));
    assert!(!is_done_marker(""));
}
