use push_dispatch::message::{Config, NotificationMessage, ValidationReason};
use push_dispatch::pipeline::{
    handle_send_result, handle_store_result, handle_trigger, SendResult, Step, StoreResult,
};
use push_dispatch::trigger::{classify_method, TriggerMode};

fn test_config() -> Config {
    Config {
        default_title: "Monthly reminder".to_string(),
        default_body: "Time to settle up".to_string(),
    }
}

fn expect_respond(step: Step) -> (u16, String) {
    match step {
        Step::Respond(r) => (r.status, r.body),
        Step::QueryStore => panic!("expected a response, got a store query"),
        Step::Send(_) => panic!("expected a response, got a send"),
    }
}

fn expect_send(step: Step) -> NotificationMessage {
    match step {
        Step::Send(m) => m,
        Step::Respond(r) => panic!("expected a send, got response {} {}", r.status, r.body),
        Step::QueryStore => panic!("expected a send, got a store query"),
    }
}

#[test]
fn classifies_methods() {
    assert!(matches!(classify_method("GET"), TriggerMode::Scheduled));
    assert!(matches!(classify_method("POST"), TriggerMode::Direct));
    assert!(matches!(classify_method("PUT"), TriggerMode::Unsupported));
    assert!(matches!(classify_method("get"), TriggerMode::Unsupported));
    assert!(matches!(classify_method(""), TriggerMode::Unsupported));
}

#[test]
fn unsupported_method_answers_405() {
    for method in ["PUT", "DELETE", "PATCH", "HEAD", "OPTIONS"] {
        let (status, body) = expect_respond(handle_trigger(method, b"{}"));
        assert_eq!(status, 405);
        assert_eq!(body, "{\"error\":\"Method not allowed\"}");
    }
}

#[test]
fn direct_valid_input_dispatches_exactly_that_message() {
    let body = b"{\"title\":\"Hello\",\"body\":\"World\",\"expo_push_token\":\"ExponentPushToken[abc123]\"}";
    let m = expect_send(handle_trigger("POST", body));
    assert_eq!(m.tokens, vec!["ExponentPushToken[abc123]".to_string()]);
    assert_eq!(m.title, "Hello");
    assert_eq!(m.body, "World");
    let resp = handle_send_result(SendResult::Accepted);
    assert_eq!(resp.status, 200);
    assert_eq!(resp.body, "{\"message\":\"Push notification sent successfully\"}");
}

#[test]
fn malformed_body_answers_400() {
    let (status, body) = expect_respond(handle_trigger("POST", b"not json at all"));
    assert_eq!(status, 400);
    assert_eq!(body, "{\"error\":\"Malformed request body\"}");
}

#[test]
fn empty_body_is_malformed() {
    let (status, body) = expect_respond(handle_trigger("POST", b""));
    assert_eq!(status, 400);
    assert_eq!(body, "{\"error\":\"Malformed request body\"}");
}

#[test]
fn direct_without_token_answers_no_recipients() {
    let body = b"{\"title\":\"Hello\",\"body\":\"World\"}";
    let (status, text) = expect_respond(handle_trigger("POST", body));
    assert_eq!(status, 400);
    assert_eq!(text, "{\"error\":\"No recipients\"}");
}

#[test]
fn direct_without_title_answers_400() {
    let body = b"{\"body\":\"World\",\"expo_push_token\":\"ExponentPushToken[abc]\"}";
    let (status, text) = expect_respond(handle_trigger("POST", body));
    assert_eq!(status, 400);
    assert_eq!(text, "{\"error\":\"Title is required\"}");
}

#[test]
fn direct_with_empty_title_answers_400() {
    let body = b"{\"title\":\"\",\"body\":\"World\",\"expo_push_token\":\"ExponentPushToken[abc]\"}";
    let (status, text) = expect_respond(handle_trigger("POST", body));
    assert_eq!(status, 400);
    assert_eq!(text, "{\"error\":\"Title is required\"}");
}

#[test]
fn direct_without_body_answers_400() {
    let body = b"{\"title\":\"Hello\",\"expo_push_token\":\"ExponentPushToken[abc]\"}";
    let (status, text) = expect_respond(handle_trigger("POST", body));
    assert_eq!(status, 400);
    assert_eq!(text, "{\"error\":\"Body is required\"}");
}

#[test]
fn direct_with_empty_body_answers_400() {
    let body = b"{\"title\":\"Hello\",\"body\":\"\",\"expo_push_token\":\"ExponentPushToken[abc]\"}";
    let (status, text) = expect_respond(handle_trigger("POST", body));
    assert_eq!(status, 400);
    assert_eq!(text, "{\"error\":\"Body is required\"}");
}

#[test]
fn direct_with_invalid_token_answers_400() {
    let body = b"{\"title\":\"Hello\",\"body\":\"World\",\"expo_push_token\":\"garbage\"}";
    let (status, text) = expect_respond(handle_trigger("POST", body));
    assert_eq!(status, 400);
    assert_eq!(text, "{\"error\":\"Invalid expo push token\"}");
}

#[test]
fn non_string_title_counts_as_missing() {
    let body = b"{\"title\":5,\"body\":\"World\"}";
    let (status, text) = expect_respond(handle_trigger("POST", body));
    assert_eq!(status, 400);
    assert_eq!(text, "{\"error\":\"Title is required\"}");
}

#[test]
fn non_object_document_has_no_fields() {
    let body = b"[1,2,3]";
    let (status, text) = expect_respond(handle_trigger("POST", body));
    assert_eq!(status, 400);
    assert_eq!(text, "{\"error\":\"Title is required\"}");
}

#[test]
fn scheduled_trigger_queries_the_store() {
    let step = handle_trigger("GET", b"");
    assert!(matches!(step, Step::QueryStore));
}

#[test]
fn scheduled_trigger_ignores_its_body() {
    let step = handle_trigger("GET", b"{\"title\":\"ignored\"}");
    assert!(matches!(step, Step::QueryStore));
}

#[test]
fn three_store_tokens_become_one_message() {
    let tokens = vec![
        "ExponentPushToken[one]".to_string(),
        "ExponentPushToken[two]".to_string(),
        "ExponentPushToken[three]".to_string(),
    ];
    let m = expect_send(handle_store_result(test_config(), StoreResult::Tokens(tokens.clone())));
    assert_eq!(m.tokens, tokens);
    assert_eq!(m.title, "Monthly reminder");
    assert_eq!(m.body, "Time to settle up");
}

#[test]
fn empty_store_answers_no_recipients() {
    let (status, text) =
        expect_respond(handle_store_result(test_config(), StoreResult::Tokens(vec![])));
    assert_eq!(status, 400);
    assert_eq!(text, "{\"error\":\"No recipients\"}");
}

#[test]
fn store_failure_answers_500() {
    let (status, text) =
        expect_respond(handle_store_result(test_config(), StoreResult::Unavailable));
    assert_eq!(status, 500);
    assert_eq!(text, "{\"error\":\"Failed to resolve recipients\"}");
}

#[test]
fn provider_failure_answers_500_without_echoing_detail() {
    let detail = "secret provider internals xyzzy".to_string();
    let resp = handle_send_result(SendResult::Failed(detail));
    assert_eq!(resp.status, 500);
    assert_eq!(resp.body, "{\"error\":\"Failed to send push notification\"}");
    assert!(!resp.body.contains("xyzzy"));
}

#[test]
fn repeated_direct_trigger_dispatches_twice_identically() {
    let body = b"{\"title\":\"Hi\",\"body\":\"There\",\"expo_push_token\":\"ExponentPushToken[tok]\"}";
    let first = expect_send(handle_trigger("POST", body));
    let second = expect_send(handle_trigger("POST", body));
    assert_eq!(first.tokens, second.tokens);
    assert_eq!(first.title, second.title);
    assert_eq!(first.body, second.body);
}

#[test]
fn build_message_rejects_empty_recipients() {
    let r = push_dispatch::message::build_message(
        vec![],
        "T".to_string(),
        "B".to_string(),
    );
    assert!(matches!(r, Err(ValidationReason::NoRecipients)));
}

#[test]
fn build_message_keeps_all_fields() {
    let r = push_dispatch::message::build_message(
        vec!["ExponentPushToken[a]".to_string()],
        "T".to_string(),
        "B".to_string(),
    );
    let m = r.expect("one recipient should build");
    assert_eq!(m.tokens, vec!["ExponentPushToken[a]".to_string()]);
    assert_eq!(m.title, "T");
    assert_eq!(m.body, "B");
}
