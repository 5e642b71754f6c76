//! The addresses of the llama.cpp servers.
use vstd::prelude::*;

verus! {

/// The environment variable that holds the address of the chat server.
pub const CHAT_URL_VARIABLE: &'static str = "LLM_URL";

/// The environment variable that holds the address of the embedding server.
pub const EMBEDDING_URL_VARIABLE: &'static str = "EMBEDDING_URL";

/// The seconds that a chat request may take: two minutes.
pub const CHAT_TIMEOUT_SECONDS: u64 = 120;

/// The seconds that an embedding request may take: two minutes.
pub const EMBEDDING_TIMEOUT_SECONDS: u64 = 120;

/// A value that is set, or else its default.
pub open spec fn set_or(value: Option<String>, default: Seq<char>) -> Seq<char> {
    match value {
        Some(text) => text@,
        None => default,
    }
}

/// A value that is set, or else its default.
pub fn value_or(value: Option<String>, default: &str) -> (r: String)
    ensures
        r@ == set_or(value, default@),
        value matches Some(text) ==> r@ == text@,
        value is None ==> r@ == default@,
{
    match value {
        Some(text) => text,
        None => default.to_string(),
    }
}

/// The address of the chat server, from the value of its variable.
pub fn chat_base_url(value: Option<String>) -> (r: String)
    ensures
        r@ == set_or(value, "http://localhost:8081"@),
        value matches Some(text) ==> r@ == text@,
        value is None ==> r@ == "http://localhost:8081"@,
{
    value_or(value, "http://localhost:8081")
}

/// The address of the embedding server, from the value of its variable.
pub fn embedding_base_url(value: Option<String>) -> (r: String)
    ensures
        r@ == set_or(value, "http://localhost:8082"@),
        value matches Some(text) ==> r@ == text@,
        value is None ==> r@ == "http://localhost:8082"@,
{
    value_or(value, "http://localhost:8082")
}

/// Where a chat server takes completion requests.
pub fn completion_url(base: &str) -> (r: String)
    ensures
        r@ == base@ + "/v1/completion"@,
{
    base.to_string().concat("/v1/completion")
}

/// Where an embedding server takes texts.
pub fn embedding_url(base: &str) -> (r: String)
    ensures
        r@ == base@ + "/embedding"@,
{
    base.to_string().concat("/embedding")
}

/// Where a server reports whether it is up.
pub fn health_url(base: &str) -> (r: String)
    ensures
        r@ == base@ + "/health"@,
{
    base.to_string().concat("/health")
}

/// What is set counts, also where it is empty; the default counts only where
/// nothing is set.
pub proof fn lemma_set_or(value: Option<String>, default: Seq<char>)
    ensures
        value matches Some(text) ==> set_or(value, default) == text@,
        value is None ==> set_or(value, default) == default,
{
}

/// The names that the environment is asked for, and the two minutes that a request
/// may take.
pub proof fn lemma_endpoint_interface()
    ensures
        CHAT_URL_VARIABLE@ == "LLM_URL"@,
        EMBEDDING_URL_VARIABLE@ == "EMBEDDING_URL"@,
        CHAT_TIMEOUT_SECONDS == 2 * 60,
        EMBEDDING_TIMEOUT_SECONDS == 2 * 60,
{
}

} // verus!
