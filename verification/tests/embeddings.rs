use llm_local::embeddings::{
    deserialize_input, take_vector, EmbeddingRequest, EmbeddingResponse, EmbeddingRun, Exchange,
    InputError, InputValue, LlamaCppEmbeddingResponseItem, Progress, ReplyBody,
};
use llm_local::reply::Reply;

fn request(input: &[&str]) -> EmbeddingRequest {
    EmbeddingRequest {
        input: input.iter().map(|t| t.to_string()).collect(),
        model: "embedder".to_string(),
        _encoding_format: None,
    }
}

fn item(embedding: Vec<Vec<f32>>) -> LlamaCppEmbeddingResponseItem<f32> {
    LlamaCppEmbeddingResponseItem { index: 0, embedding }
}

fn replied(status: u16, items: Option<Vec<LlamaCppEmbeddingResponseItem<f32>>>) -> Exchange<f32> {
    Exchange::Replied { status, body: Some(ReplyBody { text: "body".to_string(), items }) }
}

fn ask(progress: Progress<f32>) -> EmbeddingRun<f32> {
    match progress {
        Progress::Ask(run) => run,
        Progress::Finished(_) => panic!("finished"),
    }
}

fn finished(progress: Progress<f32>) -> Reply<EmbeddingResponse<f32>> {
    match progress {
        Progress::Finished(reply) => reply,
        Progress::Ask(_) => panic!("not finished"),
    }
}

fn start(input: &[&str]) -> Progress<f32> {
    EmbeddingRun::start(request(input), true)
}

fn fault(exchange: Exchange<f32>) -> String {
    match finished(ask(start(&["a"])).advance(exchange)) {
        Reply::Fault(text) => text,
        _ => panic!("not a fault"),
    }
}

#[test]
fn a_string_is_one_input() {
    let r = deserialize_input(InputValue::Text("a".to_string()));
    assert_eq!(r.ok().unwrap(), vec!["a".to_string()]);
}

#[test]
fn an_array_of_strings_is_its_items() {
    let list = vec![Some("a".to_string()), Some("b".to_string())];
    assert_eq!(
        deserialize_input(InputValue::List(list)).ok().unwrap(),
        vec!["a".to_string(), "b".to_string()]
    );
    assert!(deserialize_input(InputValue::List(vec![])).ok().unwrap().is_empty());
}

#[test]
fn other_inputs_are_errors() {
    let list = vec![Some("a".to_string()), None, None];
    assert!(matches!(
        deserialize_input(InputValue::List(list)),
        Err(InputError::ItemNotText { index: 1 })
    ));
    assert!(matches!(
        deserialize_input(InputValue::Other),
        Err(InputError::NotTextNorList)
    ));
}

#[test]
fn the_vector_is_the_first_row_of_the_first_item() {
    let items = vec![item(vec![vec![0.1, 0.2, 0.3], vec![9.0]]), item(vec![vec![8.0]])];
    assert_eq!(take_vector(items), Some(vec![0.1, 0.2, 0.3]));
    assert_eq!(take_vector(vec![item(vec![])]), Some(vec![]));
    assert_eq!(take_vector::<f32>(vec![]), None);
}

#[test]
fn every_text_gets_its_vector() {
    let run = ask(start(&["hello", "h\u{e9}"]));
    assert_eq!(run.request().content, "hello");
    assert!(run.tokens_fit());
    let run = ask(run.advance(replied(200, Some(vec![item(vec![vec![1.0, 2.0]])]))));
    assert_eq!(run.request().content, "h\u{e9}");
    match finished(run.advance(replied(201, Some(vec![item(vec![vec![3.0]])])))) {
        Reply::Json(body) => {
            assert_eq!(body.object, "list");
            assert_eq!(body.model, "embedder");
            assert_eq!(body.data.len(), 2);
            assert_eq!(body.data[0].object, "embedding");
            assert_eq!(body.data[0].embedding, vec![1.0, 2.0]);
            assert_eq!(body.data[0].index, 0);
            assert_eq!(body.data[1].embedding, vec![3.0]);
            assert_eq!(body.data[1].index, 1);
            assert_eq!(body.usage.prompt_tokens, 3);
            assert_eq!(body.usage.total_tokens, 3);
        }
        _ => panic!("no embeddings"),
    }
}

#[test]
fn no_input_gives_an_empty_list() {
    match finished(start(&[])) {
        Reply::Json(body) => {
            assert!(body.data.is_empty());
            assert_eq!(body.usage.total_tokens, 0);
        }
        _ => panic!("no embeddings"),
    }
}

#[test]
fn faults_have_their_messages() {
    match finished(EmbeddingRun::<f32>::start(request(&["a"]), false)) {
        Reply::Fault(text) => assert_eq!(text, "Failed to create HTTP client"),
        _ => panic!("not a fault"),
    }
    assert_eq!(fault(Exchange::SendFailed), "Failed to call llama.cpp server for embedding");
    assert_eq!(
        fault(Exchange::Replied { status: 200, body: None }),
        "Failed to read response"
    );
    assert_eq!(fault(replied(200, None)), "Failed to parse llama.cpp embedding response");
}

#[test]
fn an_answer_without_items_is_an_error() {
    let run = ask(start(&["a", "b"]));
    let run = ask(run.advance(replied(200, Some(vec![item(vec![])]))));
    match finished(run.advance(replied(200, Some(vec![])))) {
        Reply::Error { status, body } => {
            assert_eq!(status, 500);
            assert_eq!(body.message, "No embedding data returned for input 1");
            assert_eq!(body.kind, "server_error");
        }
        _ => panic!("not an error"),
    }
}

#[test]
fn a_refusal_is_passed_on() {
    match finished(ask(start(&["a", "b"])).advance(replied(429, Some(vec![item(vec![])])))) {
        Reply::Error { status, body } => {
            assert_eq!(status, 429);
            assert_eq!(body.message, "Failed to get embedding for input 0: body");
        }
        _ => panic!("not an error"),
    }
    let silent = Exchange::Replied { status: 302, body: None };
    match finished(ask(start(&["a"])).advance(silent)) {
        Reply::Error { status, body } => {
            assert_eq!(status, 302);
            assert_eq!(body.message, "Failed to get embedding for input 0: Unknown error");
        }
        _ => panic!("not an error"),
    }
}

#[test]
fn only_a_successful_answer_brings_a_vector() {
    assert!(replied(200, Some(vec![item(vec![])])).brings_vector());
    assert!(!replied(200, Some(vec![])).brings_vector());
    assert!(!replied(200, None).brings_vector());
    assert!(!replied(500, Some(vec![item(vec![])])).brings_vector());
    assert!(!Exchange::<f32>::SendFailed.brings_vector());
}
