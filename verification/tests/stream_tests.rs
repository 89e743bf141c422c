use logtura_cf_tail::stream::{
    handle_ws_event, json_line, StreamError, StreamStep, WsEvent, TAIL_OPTIONS_MESSAGE,
    TRACE_PROTOCOL,
};

fn text(line: &[u8]) -> String {
    String::from_utf8(line.to_vec()).unwrap()
}

fn emitted(step: StreamStep) -> Vec<u8> {
    match step {
        StreamStep::Emit(line) => line,
        other => panic!("unexpected {:?}", other),
    }
}

#[test]
fn object_message_gives_one_compact_line() {
    // serde_json's default map keeps its keys sorted.
    let line = json_line(" {\n \"scriptName\" : \"w\" ,\"n\": [1, 2]\n} ").unwrap();
    assert_eq!(text(&line), "{\"n\":[1,2],\"scriptName\":\"w\"}\n");
}

#[test]
fn array_message_gives_one_compact_line() {
    let line = json_line("[1, {\"a\" : \"x\\ny\"}, [ ]]").unwrap();
    assert_eq!(text(&line), "[1,{\"a\":\"x\\ny\"},[]]\n");
}

#[test]
fn empty_array_gives_one_line() {
    assert_eq!(text(&json_line("[]").unwrap()), "[]\n");
}

#[test]
fn invalid_json_is_refused() {
    let err = json_line("{not json").unwrap_err();
    assert!(matches!(err, StreamError::InvalidJson(_)));
    assert_eq!(err.message(), "parsing WebSocket JSON message");
}

#[test]
fn line_parses_back_to_the_message() {
    let raw = r#"{"b": [1, 2.5, null], "s": "x\ny", "t": true}"#;
    let line = json_line(raw).unwrap();
    assert_eq!(line.iter().filter(|&&b| b == b'\n').count(), 1);
    let back: serde_json::Value = serde_json::from_slice(&line).unwrap();
    let original: serde_json::Value = serde_json::from_str(raw).unwrap();
    assert_eq!(back, original);
}

#[test]
fn text_event_is_emitted() {
    let line = emitted(handle_ws_event("w", WsEvent::Text("{\"a\":1}".to_string())).unwrap());
    assert_eq!(text(&line), "{\"a\":1}\n");
}

#[test]
fn utf8_binary_event_is_emitted() {
    let line =
        emitted(handle_ws_event("w", WsEvent::Binary("[\"é\"]".as_bytes().to_vec())).unwrap());
    assert_eq!(text(&line), "[\"é\"]\n");
}

#[test]
fn binary_message_gives_the_same_line_as_its_text() {
    let raw = r#"[{"n": "é"}, 2]"#;
    let from_text = emitted(handle_ws_event("w", WsEvent::Text(raw.to_string())).unwrap());
    let from_binary =
        emitted(handle_ws_event("w", WsEvent::Binary(raw.as_bytes().to_vec())).unwrap());
    assert_eq!(from_text, from_binary);
}

#[test]
fn non_utf8_binary_event_fails() {
    let err = handle_ws_event("w1", WsEvent::Binary(vec![0xff, 0xfe])).unwrap_err();
    assert!(matches!(err, StreamError::NonUtf8Binary { .. }));
    assert_eq!(err.message(), "non-utf8 binary WebSocket message for w1");
}

#[test]
fn control_frames_are_ignored() {
    for ev in [WsEvent::Ping, WsEvent::Pong, WsEvent::Frame] {
        assert!(matches!(handle_ws_event("w", ev), Ok(StreamStep::Continue)));
    }
}

#[test]
fn close_end_and_refresh_finish_the_session() {
    for ev in [WsEvent::Close, WsEvent::StreamEnded, WsEvent::RefreshDue] {
        assert!(matches!(handle_ws_event("w", ev), Ok(StreamStep::Finish)));
    }
}

#[test]
fn read_failure_fails_the_session() {
    let err = handle_ws_event("w2", WsEvent::ReadFailed("reset".to_string())).unwrap_err();
    match &err {
        StreamError::ReadFailed { detail, .. } => assert_eq!(detail, "reset"),
        other => panic!("unexpected {:?}", other),
    }
    assert_eq!(err.message(), "reading WebSocket for w2");
}

#[test]
fn tail_protocol_constants() {
    assert_eq!(TRACE_PROTOCOL, "trace-v1");
    assert_eq!(TAIL_OPTIONS_MESSAGE, "{\"debug\":false}");
}
