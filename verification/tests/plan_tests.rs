use nlui::plan::plan_chat;
use nlui::plan::plan_delete_messages_from;
use nlui::plan::plan_edit_message;
use nlui::plan::plan_fetch_models;
use nlui::plan::plan_get_conversation_tools;
use nlui::plan::plan_list_conversations;
use nlui::plan::plan_regenerate_from;
use nlui::plan::plan_remove_target;
use nlui::plan::plan_test_proxy;
use nlui::plan::usize_to_string;
use nlui::wire::WireValue;
use nlui::HttpMethod;

const BASE: &str = "http://localhost:9000";

#[test]
fn chat_plan_shape() {
    let p = plan_chat(BASE, Some("c9"), "hello");
    assert_eq!(p.method, HttpMethod::Post);
    assert_eq!(p.url, "http://localhost:9000/api/chat");
    assert!(p.accept_event_stream);
    let body = p.body.unwrap();
    assert_eq!(body.len(), 2);
    assert_eq!(body[0].name, "conversation_id");
    assert_eq!(body[0].value, WireValue::Str("c9".to_string()));
    assert_eq!(body[1].name, "message");
    assert_eq!(body[1].value, WireValue::Str("hello".to_string()));
}

#[test]
fn chat_plan_fresh_conversation_sends_null() {
    let p = plan_chat(BASE, None, "hi");
    let body = p.body.unwrap();
    assert_eq!(body[0].value, WireValue::Null);
}

#[test]
fn get_style_plan_has_no_body() {
    let p = plan_list_conversations(BASE);
    assert_eq!(p.method, HttpMethod::Get);
    assert_eq!(p.url, "http://localhost:9000/api/conversations");
    assert!(p.body.is_none());
    assert!(!p.accept_event_stream);
}

#[test]
fn edit_message_plan_shape() {
    let p = plan_edit_message(BASE, "c1", 42, "new text");
    assert_eq!(p.method, HttpMethod::Put);
    assert_eq!(p.url, "http://localhost:9000/api/conversations/c1/messages/42");
    assert!(p.accept_event_stream);
    let body = p.body.unwrap();
    assert_eq!(body.len(), 1);
    assert_eq!(body[0].name, "content");
    assert_eq!(body[0].value, WireValue::Str("new text".to_string()));
}

#[test]
fn regenerate_plan_sends_numeric_index() {
    let p = plan_regenerate_from(BASE, "c1", 3);
    assert_eq!(p.method, HttpMethod::Post);
    assert_eq!(p.url, "http://localhost:9000/api/conversations/c1/regenerate");
    assert!(p.accept_event_stream);
    let body = p.body.unwrap();
    assert_eq!(body[0].name, "from_index");
    assert_eq!(body[0].value, WireValue::Num(3));
}

#[test]
fn delete_messages_from_plan_shape() {
    let p = plan_delete_messages_from(BASE, "c7", 10);
    assert_eq!(p.method, HttpMethod::Delete);
    assert_eq!(p.url, "http://localhost:9000/api/conversations/c7/messages/10/from");
    assert!(p.body.is_none());
}

#[test]
fn conversation_tools_plan_shape() {
    let p = plan_get_conversation_tools(BASE, "c2");
    assert_eq!(p.url, "http://localhost:9000/api/conversations/c2/tools");
}

#[test]
fn remove_target_plan_shape() {
    let p = plan_remove_target(BASE, "github");
    assert_eq!(p.method, HttpMethod::Delete);
    assert_eq!(p.url, "http://localhost:9000/api/targets/github");
}

#[test]
fn fetch_models_plan_shape() {
    let p = plan_fetch_models(BASE, "http://localhost:11434/v1", None);
    assert_eq!(p.url, "http://localhost:9000/api/config/llm/models");
    let body = p.body.unwrap();
    assert_eq!(body[0].name, "api_base");
    assert_eq!(
        body[0].value,
        WireValue::Str("http://localhost:11434/v1".to_string())
    );
    assert_eq!(body[1].name, "api_key");
    assert_eq!(body[1].value, WireValue::Null);
}

#[test]
fn test_proxy_plan_shape() {
    let p = plan_test_proxy(BASE, "socks5://127.0.0.1:1080");
    assert_eq!(p.method, HttpMethod::Post);
    assert_eq!(p.url, "http://localhost:9000/api/config/proxy/test");
    let body = p.body.unwrap();
    assert_eq!(body[0].name, "url");
    assert_eq!(
        body[0].value,
        WireValue::Str("socks5://127.0.0.1:1080".to_string())
    );
}

#[test]
fn decimal_rendering_is_exact() {
    assert_eq!(usize_to_string(0), "0");
    assert_eq!(usize_to_string(7), "7");
    assert_eq!(usize_to_string(10), "10");
    assert_eq!(usize_to_string(105), "105");
    assert_eq!(usize_to_string(usize::MAX), usize::MAX.to_string());
}

#[test]
fn same_call_plans_identically() {
    let a = plan_chat(BASE, Some("c1"), "same");
    let b = plan_chat(BASE, Some("c1"), "same");
    assert_eq!(a, b);
    let c = plan_list_conversations(BASE);
    let d = plan_list_conversations(BASE);
    assert_eq!(c, d);
}
