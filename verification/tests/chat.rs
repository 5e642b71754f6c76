use llm_local::chat::{
    chat_reply, chat_reply_with, completion, llama_request, messages_to_prompt,
    ChatCompletionRequest, ChatCompletionResponse, ChatMessage, ChatOutcome, Completed,
    LlamaCppResponse,
};
use llm_local::reply::Reply;

fn message(role: &str, content: &str) -> ChatMessage {
    ChatMessage { role: role.to_string(), content: content.to_string() }
}

fn completed(content: &str, stop: bool) -> Option<Completed> {
    Some(Completed {
        response: LlamaCppResponse { content: content.to_string(), stop },
        created: 1234,
    })
}

fn fault(reply: Reply<ChatCompletionResponse>) -> String {
    match reply {
        Reply::Fault(text) => text,
        _ => panic!("not a fault"),
    }
}

#[test]
fn prompt_names_each_speaker() {
    let messages = vec![
        message("system", "Be brief."),
        message("user", "Hi"),
        message("assistant", "Hello"),
        message("tool", "42"),
        message("User", "x"),
    ];
    assert_eq!(
        messages_to_prompt(&messages),
        "System: Be brief.\n\nUser: Hi\n\nAssistant: Hello\n\ntool: 42\n\nUser: x\n\nAssistant: "
    );
}

#[test]
fn prompt_of_no_messages_is_the_cue() {
    assert_eq!(messages_to_prompt(&[]), "Assistant: ");
}

#[test]
fn an_answer_continues_its_prompt() {
    let before = messages_to_prompt(&[message("user", "Hi")]);
    let after = messages_to_prompt(&[message("user", "Hi"), message("assistant", "Yes")]);
    assert_eq!(after, format!("{}Yes\n\nAssistant: ", before));
}

#[test]
fn request_carries_prompt_and_parameters() {
    let request = ChatCompletionRequest {
        model: "m".to_string(),
        messages: vec![message("user", "Hi")],
        stream: Some(false),
    };
    let r = llama_request(&request);
    assert_eq!(r.prompt, "User: Hi\n\nAssistant: ");
    assert_eq!(r.n_predict, Some(500));
    assert_eq!(r.temperature_hundredths, Some(70));
    assert_eq!(r.top_k, Some(40));
    assert_eq!(r.top_p_hundredths, Some(90));
    assert_eq!(r.stream, Some(false));
    assert_eq!(70 as f32 / 100.0, 0.7f32);
    assert_eq!(90 as f32 / 100.0, 0.9f32);
}

#[test]
fn completion_is_trimmed_and_names_its_end() {
    let response = LlamaCppResponse { content: " \nSure.\t".to_string(), stop: true };
    let c = completion("m", &response, 1, 99);
    assert_eq!(c.id, "chatcmpl-00000000-0000-0000-0000-000000000001");
    assert_eq!(c.object, "chat.completion");
    assert_eq!(c.created, 99);
    assert_eq!(c.model, "m");
    assert_eq!(c.choices.len(), 1);
    assert_eq!(c.choices[0].message.role, "assistant");
    assert_eq!(c.choices[0].message.content, "Sure.");
    assert_eq!(c.choices[0].finish_reason, "stop");
    let response = LlamaCppResponse { content: "Su".to_string(), stop: false };
    assert_eq!(completion("m", &response, 1, 99).choices[0].finish_reason, "length");
}

#[test]
fn completions_have_random_ids_of_version_four() {
    let outcome = || ChatOutcome::Replied {
        status: 200,
        completed: completed("a", true),
        text: None,
    };
    let id = || match chat_reply("m", outcome()) {
        Reply::Json(body) => body.id,
        _ => panic!("no completion"),
    };
    let first: Vec<char> = id().chars().collect();
    assert_eq!(first.len(), 45);
    assert_eq!(first[9 + 14], '4');
    assert!(matches!(first[9 + 19], '8' | '9' | 'a' | 'b'));
    assert_ne!(id(), id());
}

#[test]
fn failures_have_their_messages() {
    assert_eq!(fault(chat_reply("m", ChatOutcome::NoClient)), "Failed to create HTTP client");
    assert_eq!(fault(chat_reply("m", ChatOutcome::SendFailed)), "Failed to call llama.cpp server");
    let unparsable = ChatOutcome::Replied { status: 200, completed: None, text: None };
    assert_eq!(fault(chat_reply("m", unparsable)), "Failed to parse llama.cpp response");
}

#[test]
fn refusals_are_passed_on() {
    let refused = ChatOutcome::Replied {
        status: 503,
        completed: completed("ignored", true),
        text: Some("loading".to_string()),
    };
    match chat_reply_with("m", refused, 5) {
        Reply::Error { status, body } => {
            assert_eq!(status, 503);
            assert_eq!(body.message, "loading");
            assert_eq!(body.kind, "server_error");
        }
        _ => panic!("not an error"),
    }
    let silent = ChatOutcome::Replied { status: 404, completed: None, text: None };
    match chat_reply("m", silent) {
        Reply::Error { status, body } => {
            assert_eq!(status, 404);
            assert_eq!(body.message, "Unknown error");
        }
        _ => panic!("not an error"),
    }
}
