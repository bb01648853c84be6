use nlui::response::accept_response;
use nlui::NLUIError;

#[test]
fn server_error_fails_with_body_as_message() {
    let r = accept_response(500, "server exploded".to_string());
    match r {
        Err(NLUIError::ApiError(msg)) => assert_eq!(msg, "server exploded"),
        other => panic!("expected an API error, got {:?}", other),
    }
}

#[test]
fn success_statuses_hand_the_body_on() {
    assert_eq!(accept_response(200, "ok".to_string()), Ok("ok".to_string()));
    assert_eq!(accept_response(204, "".to_string()), Ok("".to_string()));
    assert_eq!(accept_response(299, "edge".to_string()), Ok("edge".to_string()));
}

#[test]
fn non_success_statuses_fail() {
    assert!(accept_response(199, "x".to_string()).is_err());
    assert!(accept_response(300, "x".to_string()).is_err());
    assert!(accept_response(404, "not found".to_string()).is_err());
}

#[test]
fn error_message_accessor_returns_the_carried_text() {
    let e = NLUIError::RequestFailed("connection reset".to_string());
    assert_eq!(e.message().as_str(), "connection reset");
    let e = NLUIError::JsonError("missing field".to_string());
    assert_eq!(e.message().as_str(), "missing field");
}

#[test]
fn identical_responses_yield_identical_results() {
    let a = accept_response(500, "boom".to_string());
    let b = accept_response(500, "boom".to_string());
    assert_eq!(a, b);
    let c = accept_response(200, "[]".to_string());
    let d = accept_response(200, "[]".to_string());
    assert_eq!(c, d);
}
