use nlui::ChatEvent;
use nlui::ChatStream;
use nlui::Delivery;

fn push_text(stream: &mut ChatStream, text: &str) -> Vec<Delivery> {
    let (out, err) = stream.push_chunk(text.as_bytes());
    assert!(err.is_none(), "unexpected stream error");
    out
}

#[test]
fn single_done_returns_identifier() {
    let mut stream = ChatStream::new(None);
    let out = push_text(
        &mut stream,
        "data: {\"type\":\"done\",\"data\":{\"conversation_id\":\"X\"}}\n",
    );
    let done_count = out
        .iter()
        .filter(|d| matches!(d, Delivery::Done(_)))
        .count();
    assert_eq!(done_count, 1);
    assert_eq!(out[0], Delivery::Done("X".to_string()));
    let (rest, err) = stream.finish();
    assert!(rest.is_empty());
    assert!(err.is_none());
    assert_eq!(stream.conversation_id().as_str(), "X");
}

#[test]
fn generic_and_done_delivery_order() {
    let mut stream = ChatStream::new(None);
    let mut out = push_text(
        &mut stream,
        "data: {\"type\":\"content_delta\",\"data\":{\"delta\":\"Hi\"}}\n",
    );
    out.extend(push_text(
        &mut stream,
        "data: {\"type\":\"done\",\"data\":{\"conversation_id\":\"c1\"}}\n",
    ));
    let expected_first = Delivery::Event(ChatEvent {
        event_type: "content_delta".to_string(),
        data: "{\"delta\":\"Hi\"}".to_string(),
        conversation_id: None,
        message: None,
    });
    let expected_done_event = Delivery::Event(ChatEvent {
        event_type: "done".to_string(),
        data: "{\"conversation_id\":\"c1\"}".to_string(),
        conversation_id: Some("c1".to_string()),
        message: None,
    });
    assert_eq!(out.len(), 3);
    assert_eq!(out[0], expected_first);
    assert_eq!(out[1], Delivery::Done("c1".to_string()));
    assert_eq!(out[2], expected_done_event);
    let generic_count = out
        .iter()
        .filter(|d| matches!(d, Delivery::Event(_)))
        .count();
    assert_eq!(generic_count, 2);
    assert_eq!(stream.conversation_id().as_str(), "c1");
}

#[test]
fn non_data_lines_produce_nothing() {
    let mut stream = ChatStream::new(Some("kept"));
    let out = push_text(&mut stream, "\n: keep-alive\nretry: 100\n\n");
    assert!(out.is_empty());
    assert_eq!(stream.conversation_id().as_str(), "kept");
}

#[test]
fn invalid_json_line_is_skipped() {
    let mut stream = ChatStream::new(None);
    let out = push_text(&mut stream, "data: {not json at all\n");
    assert!(out.is_empty());
    let out = push_text(
        &mut stream,
        "data: {\"type\":\"done\",\"data\":{\"conversation_id\":\"after\"}}\n",
    );
    assert_eq!(out.len(), 2);
    assert_eq!(stream.conversation_id().as_str(), "after");
}

#[test]
fn event_split_across_chunks() {
    let mut stream = ChatStream::new(None);
    let line = "data: {\"type\":\"done\",\"data\":{\"conversation_id\":\"split\"}}\n";
    let mut all = Vec::new();
    for b in line.as_bytes() {
        let (out, err) = stream.push_chunk(&[*b]);
        assert!(err.is_none());
        all.extend(out);
    }
    assert_eq!(all.len(), 2);
    assert_eq!(all[0], Delivery::Done("split".to_string()));
    assert_eq!(stream.conversation_id().as_str(), "split");
}

#[test]
fn final_line_without_newline_is_flushed() {
    let mut stream = ChatStream::new(None);
    let out = push_text(
        &mut stream,
        "data: {\"type\":\"done\",\"data\":{\"conversation_id\":\"tail\"}}",
    );
    assert!(out.is_empty());
    let (out, err) = stream.finish();
    assert!(err.is_none());
    assert_eq!(out.len(), 2);
    assert_eq!(stream.conversation_id().as_str(), "tail");
}

#[test]
fn carriage_return_terminators_are_tolerated() {
    let mut stream = ChatStream::new(None);
    let out = push_text(
        &mut stream,
        "data: {\"type\":\"done\",\"data\":{\"conversation_id\":\"crlf\"}}\r\n",
    );
    assert_eq!(out.len(), 2);
    assert_eq!(stream.conversation_id().as_str(), "crlf");
}

#[test]
fn multiple_done_events_keep_the_latest() {
    let mut stream = ChatStream::new(None);
    push_text(
        &mut stream,
        "data: {\"type\":\"done\",\"data\":{\"conversation_id\":\"first\"}}\n",
    );
    push_text(
        &mut stream,
        "data: {\"type\":\"done\",\"data\":{\"conversation_id\":\"second\"}}\n",
    );
    assert_eq!(stream.conversation_id().as_str(), "second");
}

#[test]
fn done_without_identifier_changes_nothing() {
    let mut stream = ChatStream::new(Some("orig"));
    let out = push_text(&mut stream, "data: {\"type\":\"done\",\"data\":{}}\n");
    assert_eq!(out.len(), 1);
    assert!(matches!(out[0], Delivery::Event(_)));
    assert_eq!(stream.conversation_id().as_str(), "orig");
}

#[test]
fn error_event_is_advisory() {
    let mut stream = ChatStream::new(Some("keep"));
    let out = push_text(
        &mut stream,
        "data: {\"type\":\"error\",\"data\":{\"message\":\"oops\"}}\n",
    );
    assert_eq!(out.len(), 2);
    assert_eq!(out[0], Delivery::Error("oops".to_string()));
    assert!(matches!(out[1], Delivery::Event(_)));
    assert!(!stream.has_failed());
    let out = push_text(
        &mut stream,
        "data: {\"type\":\"done\",\"data\":{\"conversation_id\":\"late\"}}\n",
    );
    assert_eq!(out.len(), 2);
    assert_eq!(stream.conversation_id().as_str(), "late");
}

#[test]
fn error_event_without_message_reaches_only_the_observer() {
    let mut stream = ChatStream::new(None);
    let out = push_text(&mut stream, "data: {\"type\":\"error\",\"data\":{}}\n");
    assert_eq!(out.len(), 1);
    assert!(matches!(out[0], Delivery::Event(_)));
}

#[test]
fn event_missing_data_field_is_skipped() {
    let mut stream = ChatStream::new(None);
    let out = push_text(&mut stream, "data: {\"type\":\"lonely\"}\n");
    assert!(out.is_empty());
}

#[test]
fn non_utf8_line_aborts_the_stream() {
    let mut stream = ChatStream::new(None);
    let early = push_text(
        &mut stream,
        "data: {\"type\":\"done\",\"data\":{\"conversation_id\":\"kept\"}}\n",
    );
    assert_eq!(early.len(), 2);
    let mut bad: Vec<u8> = Vec::new();
    bad.extend_from_slice(b"data: ");
    bad.push(0xff);
    bad.push(0xfe);
    bad.push(b'\n');
    let (out, err) = stream.push_chunk(&bad);
    assert!(out.is_empty());
    let err = err.expect("a broken line must abort the stream");
    assert_eq!(err.message().as_str(), "event stream line is not valid UTF-8");
    assert!(stream.has_failed());
    assert_eq!(stream.conversation_id().as_str(), "kept");
    let (out, err) = stream.push_chunk(b"data: {\"type\":\"x\",\"data\":{}}\n");
    assert!(out.is_empty());
    assert!(err.is_none());
}

#[test]
fn empty_body_keeps_the_supplied_identifier() {
    let mut stream = ChatStream::new(Some("given"));
    let (out, err) = stream.finish();
    assert!(out.is_empty());
    assert!(err.is_none());
    assert_eq!(stream.into_conversation_id(), "given");
}

#[test]
fn fresh_stream_without_events_yields_empty_identifier() {
    let mut stream = ChatStream::new(None);
    let (out, err) = stream.finish();
    assert!(out.is_empty());
    assert!(err.is_none());
    assert_eq!(stream.into_conversation_id(), "");
}

#[test]
fn other_event_kinds_pass_through_opaquely() {
    let mut stream = ChatStream::new(None);
    let out = push_text(
        &mut stream,
        "data: {\"type\":\"tool_call\",\"data\":{\"name\":\"search\"}}\n",
    );
    assert_eq!(out.len(), 1);
    match &out[0] {
        Delivery::Event(e) => {
            assert_eq!(e.event_type, "tool_call");
            assert_eq!(e.data, "{\"name\":\"search\"}");
            assert_eq!(e.conversation_id, None);
            assert_eq!(e.message, None);
        }
        other => panic!("expected a generic event delivery, got {:?}", other),
    }
}
