use nlui::event::dispatch_event;
use nlui::ChatEvent;
use nlui::Delivery;

fn done_event(cid: &str) -> ChatEvent {
    ChatEvent {
        event_type: "done".to_string(),
        data: format!("{{\"conversation_id\":\"{}\"}}", cid),
        conversation_id: Some(cid.to_string()),
        message: None,
    }
}

#[test]
fn dispatch_done_records_and_signals_before_generic() {
    let mut id = String::new();
    let out = dispatch_event(done_event("c1"), &mut id);
    assert_eq!(id, "c1");
    assert_eq!(out.len(), 2);
    assert_eq!(out[0], Delivery::Done("c1".to_string()));
    assert!(matches!(out[1], Delivery::Event(_)));
}

#[test]
fn dispatch_done_without_identifier_is_generic_only() {
    let mut id = "before".to_string();
    let ev = ChatEvent {
        event_type: "done".to_string(),
        data: "{}".to_string(),
        conversation_id: None,
        message: None,
    };
    let out = dispatch_event(ev, &mut id);
    assert_eq!(id, "before");
    assert_eq!(out.len(), 1);
    assert!(matches!(out[0], Delivery::Event(_)));
}

#[test]
fn dispatch_error_signals_then_generic_and_keeps_identifier() {
    let mut id = "keep".to_string();
    let ev = ChatEvent {
        event_type: "error".to_string(),
        data: "{\"message\":\"bad\"}".to_string(),
        conversation_id: None,
        message: Some("bad".to_string()),
    };
    let out = dispatch_event(ev, &mut id);
    assert_eq!(id, "keep");
    assert_eq!(out.len(), 2);
    assert_eq!(out[0], Delivery::Error("bad".to_string()));
    assert!(matches!(out[1], Delivery::Event(_)));
}

#[test]
fn dispatch_other_kind_is_generic_only() {
    let mut id = "stay".to_string();
    let ev = ChatEvent {
        event_type: "content_delta".to_string(),
        data: "{\"delta\":\"x\"}".to_string(),
        conversation_id: None,
        message: None,
    };
    let out = dispatch_event(ev, &mut id);
    assert_eq!(id, "stay");
    assert_eq!(out.len(), 1);
    match &out[0] {
        Delivery::Event(e) => assert_eq!(e.event_type, "content_delta"),
        other => panic!("expected a generic delivery, got {:?}", other),
    }
}

#[test]
fn dispatch_done_even_with_error_fields_present() {
    let mut id = String::new();
    let ev = ChatEvent {
        event_type: "done".to_string(),
        data: "{\"conversation_id\":\"both\",\"message\":\"m\"}".to_string(),
        conversation_id: Some("both".to_string()),
        message: Some("m".to_string()),
    };
    let out = dispatch_event(ev, &mut id);
    assert_eq!(id, "both");
    assert_eq!(out.len(), 2);
    assert_eq!(out[0], Delivery::Done("both".to_string()));
}
