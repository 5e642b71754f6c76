//! Chat completions: from an OpenAI request to a llama.cpp one, and from what
//! the llama.cpp server answered to the reply.
use crate::ids::{completion_id, completion_id_model, hyphenated, is_version_4, new_v4};
use crate::reply::{
    error_text, error_text_model, forwarded_code, forwarded_status, is_success, is_success_code,
    optional_text, server_error, server_error_model, Reply, ReplyModel,
};
use crate::text::{
    all_white_space, is_white_space, lemma_trimmed_idempotent, lemma_trimmed_is_the_core, same_text,
    trim_text, trimmed,
};
use vstd::prelude::*;

verus! {

/// One message of a conversation.
pub struct ChatMessage {
    pub role: String,
    pub content: String,
}

/// A message by its texts.
pub ghost struct MessageModel {
    pub role: Seq<char>,
    pub content: Seq<char>,
}

impl View for ChatMessage {
    type V = MessageModel;

    open spec fn view(&self) -> MessageModel {
        MessageModel { role: self.role@, content: self.content@ }
    }
}

/// A conversation by the texts of its messages.
pub open spec fn conversation(messages: Seq<ChatMessage>) -> Seq<MessageModel> {
    messages.map_values(|m: ChatMessage| m@)
}

/// What an OpenAI client asks for.
pub struct ChatCompletionRequest {
    pub model: String,
    pub messages: Vec<ChatMessage>,
    pub stream: Option<bool>,
}

/// What an OpenAI client is answered.
pub struct ChatCompletionResponse {
    pub id: String,
    pub object: String,
    pub created: u64,
    pub model: String,
    pub choices: Vec<Choice>,
}

/// One of the answers in a completion.
pub struct Choice {
    pub message: ChatMessage,
    pub finish_reason: String,
}

/// An answer by its texts.
pub ghost struct ChoiceModel {
    pub message: MessageModel,
    pub finish_reason: Seq<char>,
}

impl View for Choice {
    type V = ChoiceModel;

    open spec fn view(&self) -> ChoiceModel {
        ChoiceModel { message: self.message@, finish_reason: self.finish_reason@ }
    }
}

/// A completion by its texts and its time.
pub ghost struct CompletionModel {
    pub id: Seq<char>,
    pub object: Seq<char>,
    pub created: u64,
    pub model: Seq<char>,
    pub choices: Seq<ChoiceModel>,
}

impl View for ChatCompletionResponse {
    type V = CompletionModel;

    open spec fn view(&self) -> CompletionModel {
        CompletionModel {
            id: self.id@,
            object: self.object@,
            created: self.created,
            model: self.model@,
            choices: self.choices@.map_values(|c: Choice| c@),
        }
    }
}

/// What the llama.cpp server is asked for. The two sampling parameters are held
/// in hundredths.
pub struct LlamaCppRequest {
    pub prompt: String,
    pub n_predict: Option<i32>,
    pub temperature_hundredths: Option<u32>,
    pub top_k: Option<i32>,
    pub top_p_hundredths: Option<u32>,
    pub stream: Option<bool>,
}

/// What the llama.cpp server answers: the text, and whether it came to its end.
pub struct LlamaCppResponse {
    pub content: String,
    pub stop: bool,
}

/// How the prompt calls the one who speaks in a role.
pub open spec fn speaker(role: Seq<char>) -> Seq<char> {
    if role == "system"@ {
        "System"@
    } else if role == "user"@ {
        "User"@
    } else if role == "assistant"@ {
        "Assistant"@
    } else {
        role
    }
}

/// A message as it stands in the prompt.
pub open spec fn turn(message: MessageModel) -> Seq<char> {
    speaker(message.role) + ": "@ + message.content + "\n\n"@
}

/// The messages one after the other, as they stand in the prompt.
pub open spec fn transcript(messages: Seq<MessageModel>) -> Seq<char>
    decreases messages.len(),
{
    if messages.len() == 0 {
        Seq::empty()
    } else {
        transcript(messages.drop_last()) + turn(messages.last())
    }
}

/// The prompt of a conversation: the transcript, then the cue to answer.
pub open spec fn prompt_of(messages: Seq<MessageModel>) -> Seq<char> {
    transcript(messages) + "Assistant: "@
}

/// How the prompt calls the one who speaks in a role.
fn speaker_text(role: &str) -> (r: String)
    ensures
        r@ == speaker(role@),
{
    if same_text(role, "system") {
        "System".to_string()
    } else if same_text(role, "user") {
        "User".to_string()
    } else if same_text(role, "assistant") {
        "Assistant".to_string()
    } else {
        role.to_string()
    }
}

/// Converts the messages of a conversation to a single prompt.
pub fn messages_to_prompt(messages: &[ChatMessage]) -> (r: String)
    ensures
        r@ == prompt_of(conversation(messages@)),
        messages@.len() == 0 ==> r@ == "Assistant: "@,
{
    let mut prompt: String = String::new();
    let ghost models = conversation(messages@);
    proof {
        assert(models.take(0) =~= Seq::empty());
    }
    for i in 0..messages.len()
        invariant
            models == conversation(messages@),
            prompt@ == transcript(models.take(i as int)),
    {
        let message = &messages[i];
        proof {
            assert(models.take(i + 1).drop_last() =~= models.take(i as int));
            assert(models.take(i + 1).last() == message@);
        }
        let ghost before = prompt@;
        prompt.append(speaker_text(message.role.as_str()).as_str());
        prompt.append(": ");
        prompt.append(message.content.as_str());
        prompt.append("\n\n");
        proof {
            assert(prompt@ =~= before + turn(message@));
        }
    }
    proof {
        assert(models.take(messages@.len() as int) =~= models);
    }
    prompt.append("Assistant: ");
    prompt
}

/// What the llama.cpp server is asked for to serve a request.
pub fn llama_request(request: &ChatCompletionRequest) -> (r: LlamaCppRequest)
    ensures
        r.prompt@ == prompt_of(conversation(request.messages@)),
        r.n_predict == Some(500i32),
        r.temperature_hundredths == Some(70u32),
        r.top_k == Some(40i32),
        r.top_p_hundredths == Some(90u32),
        r.stream == request.stream,
{
    LlamaCppRequest {
        prompt: messages_to_prompt(request.messages.as_slice()),
        n_predict: Some(500),
        temperature_hundredths: Some(70),
        top_k: Some(40),
        top_p_hundredths: Some(90),
        stream: request.stream,
    }
}

/// Why a completion ended: at the end of the text, or at the length limit.
pub open spec fn finish_reason(stop: bool) -> Seq<char> {
    if stop {
        "stop"@
    } else {
        "length"@
    }
}

/// The completion that a llama.cpp answer becomes.
pub open spec fn completion_model(
    model: Seq<char>,
    content: Seq<char>,
    stop: bool,
    uuid: u128,
    created: u64,
) -> CompletionModel {
    CompletionModel {
        id: completion_id_model(uuid),
        object: "chat.completion"@,
        created,
        model,
        choices: seq![
            ChoiceModel {
                message: MessageModel { role: "assistant"@, content: trimmed(content) },
                finish_reason: finish_reason(stop),
            },
        ],
    }
}

/// Converts a llama.cpp answer to the completion with the given UUID and time.
pub fn completion(model: &str, response: &LlamaCppResponse, uuid: u128, created: u64) -> (r:
    ChatCompletionResponse)
    ensures
        r@ == completion_model(model@, response.content@, response.stop, uuid, created),
        r.id@ == "chatcmpl-"@ + hyphenated(uuid),
        r.object@ == "chat.completion"@,
        r.created == created,
        r.model@ == model@,
        r.choices@.len() == 1,
        r.choices@[0].message.role@ == "assistant"@,
        r.choices@[0].message.content@ == trimmed(response.content@),
        r.choices@[0].finish_reason@ == (if response.stop {
            "stop"@
        } else {
            "length"@
        }),
{
    let message = ChatMessage {
        role: "assistant".to_string(),
        content: trim_text(response.content.as_str()),
    };
    let finish_reason: String = if response.stop {
        "stop".to_string()
    } else {
        "length".to_string()
    };
    let r = ChatCompletionResponse {
        id: completion_id(uuid),
        object: "chat.completion".to_string(),
        created,
        model: model.to_string(),
        choices: vec![Choice { message, finish_reason }],
    };
    proof {
        assert(r@.choices =~= completion_model(
            model@,
            response.content@,
            response.stop,
            uuid,
            created,
        ).choices);
    }
    r
}

/// A completion of the prompt, and the time of it in seconds since the Unix epoch.
pub struct Completed {
    pub response: LlamaCppResponse,
    pub created: u64,
}

/// How the request to the llama.cpp server went.
pub enum ChatOutcome {
    /// No HTTP client could be made.
    NoClient,
    /// The request could not be sent.
    SendFailed,
    /// The server replied with this status; with the completion that the body
    /// is, where it is one, and with its text, where that could be read.
    Replied { status: u16, completed: Option<Completed>, text: Option<String> },
}

/// The server reported success and completed the prompt.
pub open spec fn is_completed(outcome: ChatOutcome) -> bool {
    outcome matches ChatOutcome::Replied { status, completed: Some(_), .. } && is_success_code(
        status,
    )
}

/// The reply to a client that asked for `model`, once the request to the
/// llama.cpp server went as `outcome` says. Only a completion has the UUID.
pub open spec fn chat_reply_model(
    model: Seq<char>,
    outcome: ChatOutcome,
    uuid: u128,
) -> ReplyModel<CompletionModel> {
    match outcome {
        ChatOutcome::NoClient => ReplyModel::Fault("Failed to create HTTP client"@),
        ChatOutcome::SendFailed => ReplyModel::Fault("Failed to call llama.cpp server"@),
        ChatOutcome::Replied { status, completed, text } => if !is_success_code(status) {
            server_error_model(forwarded_code(status), error_text_model(optional_text(text)))
        } else {
            match completed {
                None => ReplyModel::Fault("Failed to parse llama.cpp response"@),
                Some(Completed { response, created }) => ReplyModel::Json(
                    completion_model(model, response.content@, response.stop, uuid, created),
                ),
            }
        },
    }
}

/// The reply to a client, with this UUID for a completion.
pub fn chat_reply_with(model: &str, outcome: ChatOutcome, uuid: u128) -> (r: Reply<
    ChatCompletionResponse,
>)
    ensures
        r@ == chat_reply_model(model@, outcome, uuid),
{
    match outcome {
        ChatOutcome::NoClient => Reply::Fault("Failed to create HTTP client".to_string()),
        ChatOutcome::SendFailed => Reply::Fault("Failed to call llama.cpp server".to_string()),
        ChatOutcome::Replied { status, completed, text } => {
            if !is_success(status) {
                server_error(forwarded_status(status), error_text(text))
            } else {
                match completed {
                    None => Reply::Fault("Failed to parse llama.cpp response".to_string()),
                    Some(done) => Reply::Json(
                        completion(model, &done.response, uuid, done.created),
                    ),
                }
            }
        },
    }
}

/// Whether the server reported success and completed the prompt.
fn has_completion(outcome: &ChatOutcome) -> (r: bool)
    ensures
        r == is_completed(*outcome),
{
    match outcome {
        ChatOutcome::Replied { status, completed: Some(_), .. } => is_success(*status),
        _ => false,
    }
}

/// The reply to a client, with a random UUID for a completion.
pub fn chat_reply(model: &str, outcome: ChatOutcome) -> (r: Reply<ChatCompletionResponse>)
    ensures
        is_completed(outcome) ==> exists|uuid: u128| #[trigger]
            is_version_4(uuid) && r@ == chat_reply_model(model@, outcome, uuid),
        !is_completed(outcome) ==> r@ == chat_reply_model(model@, outcome, 0),
{
    let uuid: u128 = if has_completion(&outcome) {
        new_v4()
    } else {
        0
    };
    chat_reply_with(model, outcome, uuid)
}

/// The transcript of a conversation that goes on is the transcript of its
/// beginning, then that of the rest.
pub proof fn lemma_transcript_concat(first: Seq<MessageModel>, rest: Seq<MessageModel>)
    ensures
        transcript(first + rest) == transcript(first) + transcript(rest),
    decreases rest.len(),
{
    if rest.len() == 0 {
        assert(first + rest =~= first);
        assert(transcript(first) + transcript(rest) =~= transcript(first));
    } else {
        assert((first + rest).drop_last() =~= first + rest.drop_last());
        lemma_transcript_concat(first, rest.drop_last());
        assert(transcript(first + rest) =~= transcript(first) + transcript(rest));
    }
}

/// A conversation that goes on with an answer of the assistant continues the
/// prompt that asked for it: the answer follows the cue, and a new cue the answer.
pub proof fn lemma_prompt_goes_on(messages: Seq<MessageModel>, answer: Seq<char>)
    ensures
        prompt_of(messages.push(MessageModel { role: "assistant"@, content: answer }))
            == prompt_of(messages) + answer + "\n\n"@ + "Assistant: "@,
{
    let message = MessageModel { role: "assistant"@, content: answer };
    reveal_strlit("system");
    reveal_strlit("user");
    reveal_strlit("assistant");
    reveal_strlit("Assistant");
    reveal_strlit(": ");
    reveal_strlit("Assistant: ");
    assert("assistant"@.len() != "system"@.len() && "assistant"@.len() != "user"@.len());
    assert("Assistant"@ + ": "@ =~= "Assistant: "@);
    assert(messages.push(message).drop_last() =~= messages);
    assert(turn(message) =~= "Assistant: "@ + answer + "\n\n"@);
    assert(prompt_of(messages.push(message)) =~= prompt_of(messages) + answer + "\n\n"@
        + "Assistant: "@);
}

/// A role without a name of its own is called by the role itself; the three that
/// have one are called by it.
pub proof fn lemma_speakers(role: Seq<char>)
    ensures
        speaker("system"@) == "System"@,
        speaker("user"@) == "User"@,
        speaker("assistant"@) == "Assistant"@,
        role != "system"@ && role != "user"@ && role != "assistant"@ ==> speaker(role) == role,
{
    reveal_strlit("system");
    reveal_strlit("user");
    reveal_strlit("assistant");
    assert("system"@.len() == 6 && "user"@.len() == 4 && "assistant"@.len() == 9);
}

/// A client that asked for a completion gets one exactly where the llama.cpp
/// server completed the prompt: then there is one choice, it is the assistant's,
/// without white space at its ends, and it names the model that was asked for.
pub proof fn lemma_chat_reply_is_completion(model: Seq<char>, outcome: ChatOutcome, uuid: u128)
    ensures
        chat_reply_model(model, outcome, uuid) is Json <==> is_completed(outcome),
        chat_reply_model(model, outcome, uuid) matches ReplyModel::Json(body) ==> {
            &&& body.model == model
            &&& body.choices.len() == 1
            &&& body.choices[0].message.role == "assistant"@
            &&& trimmed(body.choices[0].message.content) == body.choices[0].message.content
        },
{
    if is_completed(outcome) {
        lemma_trimmed_idempotent(outcome->completed->0.response.content@);
    }
}

/// Only a completion depends on the UUID, and a failure of the llama.cpp server is
/// never passed on as a success.
pub proof fn lemma_chat_failure(model: Seq<char>, outcome: ChatOutcome, uuid: u128, other: u128)
    requires
        !is_completed(outcome),
    ensures
        chat_reply_model(model, outcome, uuid) == chat_reply_model(model, outcome, other),
        chat_reply_model(model, outcome, uuid) matches ReplyModel::Error { status, .. }
            ==> !is_success_code(status),
{
}

/// The model of a conversation holds every message, in its place, with the whole of
/// both its texts.
pub proof fn lemma_conversation(messages: Seq<ChatMessage>)
    ensures
        conversation(messages).len() == messages.len(),
        forall|i: int|
            0 <= i < messages.len() ==> {
                &&& (#[trigger] conversation(messages)[i]).role == messages[i].role@
                &&& conversation(messages)[i].content == messages[i].content@
            },
{
}

/// The prompt of a single message, whatever it says: who speaks, the whole content,
/// a blank line and the cue. The three roles that have a name are called by it, and
/// any other role by the role itself.
pub proof fn lemma_prompt_of_one_message(role: Seq<char>, content: Seq<char>)
    ensures
        prompt_of(seq![MessageModel { role: "system"@, content }]) == "System: "@ + content
            + "\n\nAssistant: "@,
        prompt_of(seq![MessageModel { role: "user"@, content }]) == "User: "@ + content
            + "\n\nAssistant: "@,
        prompt_of(seq![MessageModel { role: "assistant"@, content }]) == "Assistant: "@ + content
            + "\n\nAssistant: "@,
        role != "system"@ && role != "user"@ && role != "assistant"@ ==> prompt_of(
            seq![MessageModel { role, content }],
        ) == role + ": "@ + content + "\n\nAssistant: "@,
{
    lemma_speakers(role);
    reveal_strlit("System");
    reveal_strlit("User");
    reveal_strlit("Assistant");
    reveal_strlit(": ");
    reveal_strlit("System: ");
    reveal_strlit("User: ");
    reveal_strlit("Assistant: ");
    reveal_strlit("\n\n");
    reveal_strlit("\n\nAssistant: ");
    assert("System"@ + ": "@ =~= "System: "@);
    assert("User"@ + ": "@ =~= "User: "@);
    assert("Assistant"@ + ": "@ =~= "Assistant: "@);
    assert("\n\n"@ + "Assistant: "@ =~= "\n\nAssistant: "@);
    lemma_one_turn(MessageModel { role: "system"@, content }, "System: "@);
    lemma_one_turn(MessageModel { role: "user"@, content }, "User: "@);
    lemma_one_turn(MessageModel { role: "assistant"@, content }, "Assistant: "@);
    lemma_one_turn(MessageModel { role, content }, speaker(role) + ": "@);
}

proof fn lemma_one_turn(message: MessageModel, opening: Seq<char>)
    requires
        speaker(message.role) + ": "@ == opening,
        "\n\n"@ + "Assistant: "@ == "\n\nAssistant: "@,
    ensures
        prompt_of(seq![message]) == opening + message.content + "\n\nAssistant: "@,
{
    assert(seq![message].drop_last() =~= Seq::empty());
    assert(transcript(Seq::empty()) == Seq::<char>::empty());
    assert(transcript(seq![message]) =~= turn(message));
    assert(prompt_of(seq![message]) =~= opening + message.content + ("\n\n"@ + "Assistant: "@));
}

/// The prompt of no messages is the cue. The prompt of a conversation that goes on is
/// that of its beginning, with the prompt of the rest in place of the cue.
pub proof fn lemma_prompt_concat(first: Seq<MessageModel>, rest: Seq<MessageModel>)
    ensures
        prompt_of(Seq::empty()) == "Assistant: "@,
        prompt_of(first).len() >= 11,
        prompt_of(first).skip(prompt_of(first).len() - 11) == "Assistant: "@,
        prompt_of(first + rest) == prompt_of(first).take(prompt_of(first).len() - 11) + prompt_of(
            rest,
        ),
{
    reveal_strlit("Assistant: ");
    assert(prompt_of(Seq::empty()) =~= "Assistant: "@);
    lemma_transcript_concat(first, rest);
    assert(prompt_of(first).skip(prompt_of(first).len() - 11) =~= "Assistant: "@);
    assert(prompt_of(first).take(prompt_of(first).len() - 11) =~= transcript(first));
    assert(prompt_of(first + rest) =~= transcript(first) + prompt_of(rest));
}

/// Whenever the llama.cpp server reports success and completes the prompt, at its end
/// or at the length limit, the client gets that answer: white space, then the content
/// of the one choice, then white space make up the text that the server sent, and the
/// content neither starts nor ends with white space. The rest is the assistant's role,
/// the reason that the answer ended, the id, the time and the model.
pub proof fn lemma_chat_reply_keeps_the_answer(
    model: Seq<char>,
    status: u16,
    completed: Completed,
    text: Option<String>,
    uuid: u128,
)
    requires
        200 <= status < 300,
    ensures
        chat_reply_model(
            model,
            ChatOutcome::Replied { status, completed: Some(completed), text },
            uuid,
        ) matches ReplyModel::Json(body) && ({
            let content = body.choices[0].message.content;
            &&& body.id == "chatcmpl-"@ + hyphenated(uuid)
            &&& body.object == "chat.completion"@
            &&& body.created == completed.created
            &&& body.model == model
            &&& body.choices.len() == 1
            &&& body.choices[0].message.role == "assistant"@
            &&& completed.response.stop ==> body.choices[0].finish_reason == "stop"@
            &&& !completed.response.stop ==> body.choices[0].finish_reason == "length"@
            &&& exists|lead: Seq<char>, tail: Seq<char>| #[trigger]
                (lead + content + tail) == completed.response.content@ && all_white_space(lead)
                    && all_white_space(tail)
            &&& content.len() > 0 ==> !is_white_space(content.first()) && !is_white_space(
                content.last(),
            )
        }),
{
    lemma_trimmed_is_the_core(completed.response.content@);
}

/// What the client gets where there is no completion, in so many words.
pub proof fn lemma_chat_failures(
    model: Seq<char>,
    status: u16,
    completed: Option<Completed>,
    text: Option<String>,
    uuid: u128,
)
    ensures
        chat_reply_model(model, ChatOutcome::NoClient, uuid) == ReplyModel::<
            CompletionModel,
        >::Fault("Failed to create HTTP client"@),
        chat_reply_model(model, ChatOutcome::SendFailed, uuid) == ReplyModel::<
            CompletionModel,
        >::Fault("Failed to call llama.cpp server"@),
        200 <= status < 300 ==> chat_reply_model(
            model,
            ChatOutcome::Replied { status, completed: None, text },
            uuid,
        ) == ReplyModel::<CompletionModel>::Fault("Failed to parse llama.cpp response"@),
        !(200 <= status < 300) ==> (chat_reply_model(
            model,
            ChatOutcome::Replied { status, completed, text },
            uuid,
        ) matches ReplyModel::Error { status: sent, message, kind } && ({
            &&& 100 <= status < 1000 ==> sent == status
            &&& !(100 <= status < 1000) ==> sent == 500
            &&& text matches Some(t) ==> message == t@
            &&& text is None ==> message == "Unknown error"@
            &&& kind == "server_error"@
        })),
{
}

/// The model of a completion shows all that is sent.
pub proof fn lemma_completion_shown(response: ChatCompletionResponse)
    ensures
        response@.id == response.id@,
        response@.object == response.object@,
        response@.created == response.created,
        response@.model == response.model@,
        response@.choices.len() == response.choices@.len(),
        forall|i: int|
            0 <= i < response.choices@.len() ==> {
                let choice = response.choices@[i];
                &&& (#[trigger] response@.choices[i]).message.role == choice.message.role@
                &&& response@.choices[i].message.content == choice.message.content@
                &&& response@.choices[i].finish_reason == choice.finish_reason@
            },
{
}

} // verus!
