use llm_local::chat::ChatCompletionResponse;
use llm_local::endpoints::{
    chat_base_url, completion_url, embedding_base_url, embedding_url, health_url,
    CHAT_TIMEOUT_SECONDS, EMBEDDING_TIMEOUT_SECONDS,
};
use llm_local::ids::{bot_id_or_nil, completion_id};
use llm_local::reply::{error_text, forwarded_status, is_success, server_error, Reply};

#[test]
fn success_is_two_hundred_to_two_ninety_nine() {
    assert!(!is_success(0));
    assert!(!is_success(199));
    assert!(is_success(200));
    assert!(is_success(299));
    assert!(!is_success(300));
    assert!(!is_success(1200));
}

#[test]
fn statuses_are_forwarded() {
    assert_eq!(forwarded_status(503), 503);
    assert_eq!(forwarded_status(100), 100);
    assert_eq!(forwarded_status(999), 999);
    assert_eq!(forwarded_status(99), 500);
    assert_eq!(forwarded_status(1000), 500);
}

#[test]
fn unreadable_error_texts_have_a_stand_in() {
    assert_eq!(error_text(Some("busy".to_string())), "busy");
    assert_eq!(error_text(None), "Unknown error");
}

#[test]
fn server_errors_name_their_type() {
    let r: Reply<ChatCompletionResponse> = server_error(502, "no".to_string());
    match r {
        Reply::Error { status, body } => {
            assert_eq!(status, 502);
            assert_eq!(body.message, "no");
            assert_eq!(body.kind, "server_error");
        }
        _ => panic!("not an error"),
    }
}

#[test]
fn addresses_have_defaults_and_paths() {
    assert_eq!(chat_base_url(None), "http://localhost:8081");
    assert_eq!(embedding_base_url(None), "http://localhost:8082");
    assert_eq!(chat_base_url(Some("http://h:1".to_string())), "http://h:1");
    assert_eq!(embedding_base_url(Some(String::new())), "");
    assert_eq!(completion_url("http://h:1"), "http://h:1/v1/completion");
    assert_eq!(embedding_url("http://h:1"), "http://h:1/embedding");
    assert_eq!(health_url("http://h:1"), "http://h:1/health");
}

#[test]
fn requests_may_take_two_minutes() {
    assert_eq!(CHAT_TIMEOUT_SECONDS, 120);
    assert_eq!(EMBEDDING_TIMEOUT_SECONDS, 120);
}

#[test]
fn completion_ids_hold_the_uuid() {
    assert_eq!(
        completion_id(0x67e55044_10b1_426f_9247_bb680e5fe0c8),
        "chatcmpl-67e55044-10b1-426f-9247-bb680e5fe0c8"
    );
    assert_eq!(completion_id(0), "chatcmpl-00000000-0000-0000-0000-000000000000");
    assert_ne!(completion_id(1), completion_id(2));
}

#[test]
fn a_missing_bot_has_the_nil_id() {
    assert_eq!(bot_id_or_nil(None), 0);
    assert_eq!(bot_id_or_nil(Some(7)), 7);
}
