//! Embeddings: one text after the other goes to the llama.cpp server, and the
//! vectors that come back make up the reply.
use crate::reply::{
    error_text, error_text_model, forwarded_code, forwarded_status, is_success, is_success_code,
    server_error, server_error_model, Reply, ReplyModel, INTERNAL_SERVER_ERROR,
};
use crate::text::{decimal, decimal_text};
use crate::tokens::{estimate_tokens, estimated_tokens};
use vstd::prelude::*;
use vstd::utf8::encode_utf8;

verus! {

/// What a client may send as the input of an embedding request.
pub const EXPECTED_INPUT: &'static str = "a string or an array of strings";

/// What each item of an array that is sent as the input must be.
pub const EXPECTED_ITEM: &'static str = "a string";

/// A value sent as the input of an embedding request.
pub enum InputValue {
    /// A string.
    Text(String),
    /// An array; with the string that each item is, where it is one.
    List(Vec<Option<String>>),
    /// Anything else.
    Other,
}

/// Why a value is no input.
pub enum InputError {
    /// It is neither a string nor an array.
    NotTextNorList,
    /// It is an array, and this is the first item of it that is no string.
    ItemNotText { index: usize },
}

/// The texts of an input: the one string that it is, or the strings of the array.
pub fn deserialize_input(value: InputValue) -> (r: Result<Vec<String>, InputError>)
    ensures
        match value {
            InputValue::Text(text) => r matches Ok(texts) && texts@ == seq![text],
            InputValue::List(items) => match r {
                Ok(texts) => items@ == texts@.map_values(|t: String| Some(t)),
                Err(InputError::ItemNotText { index }) => {
                    &&& index < items@.len()
                    &&& items@[index as int] is None
                    &&& forall|i: int| 0 <= i < index ==> #[trigger] items@[i] is Some
                },
                Err(InputError::NotTextNorList) => false,
            },
            InputValue::Other => r matches Err(InputError::NotTextNorList),
        },
{
    match value {
        InputValue::Text(text) => Ok(vec![text]),
        InputValue::List(items) => {
            let mut texts: Vec<String> = Vec::new();
            for item in it: items
                invariant
                    value == InputValue::List(items),
                    it.seq() == items@,
                    texts@.len() == it.index(),
                    forall|i: int|
                        0 <= i < it.index() ==> #[trigger] items@[i] == Some(texts@[i]),
            {
                match item {
                    Some(text) => {
                        texts.push(text);
                    },
                    None => {
                        return Err(InputError::ItemNotText { index: texts.len() });
                    },
                }
            }
            proof {
                assert(items@ =~= texts@.map_values(|t: String| Some(t)));
            }
            Ok(texts)
        },
        InputValue::Other => Err(InputError::NotTextNorList),
    }
}

/// What an OpenAI client asks for.
pub struct EmbeddingRequest {
    pub input: Vec<String>,
    pub model: String,
    pub _encoding_format: Option<String>,
}

/// What an OpenAI client is answered. `T` is the type of a vector's components.
pub struct EmbeddingResponse<T> {
    pub object: String,
    pub data: Vec<EmbeddingData<T>>,
    pub model: String,
    pub usage: Usage,
}

/// The vector of one text.
pub struct EmbeddingData<T> {
    pub object: String,
    pub embedding: Vec<T>,
    pub index: usize,
}

/// The tokens that a request is estimated to have taken.
pub struct Usage {
    pub prompt_tokens: u32,
    pub total_tokens: u32,
}

/// What the llama.cpp server is sent.
pub struct LlamaCppEmbeddingRequest {
    pub content: String,
}

/// An item of the array that the llama.cpp server answers with.
pub struct LlamaCppEmbeddingResponseItem<T> {
    pub index: usize,
    pub embedding: Vec<Vec<T>>,
}

/// The vector of one text, by its parts.
pub ghost struct DatumModel<T> {
    pub object: Seq<char>,
    pub embedding: Seq<T>,
    pub index: int,
}

impl<T> View for EmbeddingData<T> {
    type V = DatumModel<T>;

    open spec fn view(&self) -> DatumModel<T> {
        DatumModel {
            object: self.object@,
            embedding: self.embedding@,
            index: self.index as int,
        }
    }
}

/// The vectors of some texts, by their parts.
pub open spec fn data_model<T>(data: Seq<EmbeddingData<T>>) -> Seq<DatumModel<T>> {
    data.map_values(|d: EmbeddingData<T>| d@)
}

/// A response, by its parts.
pub ghost struct ResponseModel<T> {
    pub object: Seq<char>,
    pub data: Seq<DatumModel<T>>,
    pub model: Seq<char>,
    pub prompt_tokens: int,
    pub total_tokens: int,
}

impl<T> View for EmbeddingResponse<T> {
    type V = ResponseModel<T>;

    open spec fn view(&self) -> ResponseModel<T> {
        ResponseModel {
            object: self.object@,
            data: data_model(self.data@),
            model: self.model@,
            prompt_tokens: self.usage.prompt_tokens as int,
            total_tokens: self.usage.total_tokens as int,
        }
    }
}

/// What the server sent in reply.
pub struct ReplyBody<T> {
    /// The body as text.
    pub text: String,
    /// The items of the array that the body is, where it is one.
    pub items: Option<Vec<LlamaCppEmbeddingResponseItem<T>>>,
}

/// How the exchange about one text went.
pub enum Exchange<T> {
    /// The text could not be sent.
    SendFailed,
    /// The server replied with this status, and this body where it could be read.
    Replied { status: u16, body: Option<ReplyBody<T>> },
}

/// The vector in an answer: the first row of the first item. It is empty where
/// that item has no row, and there is none where the answer has no item.
pub open spec fn vector_of<T>(items: Seq<LlamaCppEmbeddingResponseItem<T>>) -> Option<Seq<T>> {
    if items.len() == 0 {
        None
    } else if items[0].embedding@.len() == 0 {
        Some(Seq::empty())
    } else {
        Some(items[0].embedding@[0]@)
    }
}

/// The vector that an exchange brought, where it brought one: the server
/// reported success, and its answer has a vector.
pub open spec fn vector_from<T>(exchange: Exchange<T>) -> Option<Seq<T>> {
    match exchange {
        Exchange::Replied { status, body: Some(ReplyBody { text: _, items: Some(items) }) } => {
            if is_success_code(status) {
                vector_of(items@)
            } else {
                None
            }
        },
        _ => None,
    }
}

impl<T> Exchange<T> {
    /// Whether the exchange brought a vector.
    pub fn brings_vector(&self) -> (r: bool)
        ensures
            r == (vector_from(*self) is Some),
            r <==> (self matches Exchange::Replied { status, body: Some(body) } && 200 <= *status
                && *status < 300 && (body.items matches Some(items) && items@.len() > 0)),
    {
        match self {
            Exchange::Replied { status, body: Some(body) } => match &body.items {
                Some(items) => is_success(*status) && items.len() > 0,
                None => false,
            },
            _ => false,
        }
    }
}

/// The vector in an answer.
pub fn take_vector<T>(items: Vec<LlamaCppEmbeddingResponseItem<T>>) -> (r: Option<Vec<T>>)
    ensures
        match r {
            Some(vector) => vector_of(items@) == Some(vector@),
            None => vector_of(items@) is None,
        },
        r is Some <==> items@.len() > 0,
        r matches Some(vector) ==> ({
            let rows = items@[0].embedding@;
            &&& rows.len() > 0 ==> vector@.len() == rows[0]@.len()
            &&& rows.len() > 0 ==> forall|k: int|
                0 <= k < vector@.len() ==> #[trigger] vector@[k] == rows[0]@[k]
            &&& rows.len() == 0 ==> vector@.len() == 0
        }),
{
    let mut items = items;
    if items.len() == 0 {
        return None;
    }
    let item = items.swap_remove(0);
    let mut rows = item.embedding;
    if rows.len() == 0 {
        Some(Vec::new())
    } else {
        Some(rows.swap_remove(0))
    }
}

/// The tokens that a text is estimated to have, by its length in UTF-8.
pub open spec fn text_tokens(text: Seq<char>) -> nat {
    estimated_tokens(encode_utf8(text).len())
}

/// The tokens that some texts are estimated to have together.
pub open spec fn total_tokens(texts: Seq<Seq<char>>) -> nat
    decreases texts.len(),
{
    if texts.len() == 0 {
        0
    } else {
        total_tokens(texts.drop_last()) + text_tokens(texts.last())
    }
}

/// How far the work on a request has come: the texts to embed, and the vectors
/// and tokens of those that were embedded. The next text to send is the first
/// that has no vector yet.
pub ghost struct RunModel<T> {
    pub inputs: Seq<Seq<char>>,
    pub model: Seq<char>,
    pub data: Seq<DatumModel<T>>,
    pub tokens: nat,
}

impl<T> RunModel<T> {
    /// Some text is still to be sent; the vectors stand in the order of the
    /// texts, each with the place of its text; and the tokens are those of the
    /// texts that have a vector.
    pub open spec fn well_formed(self) -> bool {
        &&& self.data.len() < self.inputs.len()
        &&& data_in_order(self.data)
        &&& self.tokens == total_tokens(self.inputs.take(self.data.len() as int))
    }

    /// The text to send next.
    pub open spec fn current(self) -> Seq<char> {
        self.inputs[self.data.len() as int]
    }

    /// The tokens still have room in a `u32` with those of the current text.
    pub open spec fn tokens_fit(self) -> bool {
        self.tokens + text_tokens(self.current()) <= u32::MAX
    }
}

/// Every vector has the place where it stands.
pub open spec fn data_in_order<T>(data: Seq<DatumModel<T>>) -> bool {
    forall|i: int|
        0 <= i < data.len() ==> (#[trigger] data[i]).index == i && data[i].object == "embedding"@
}

/// The work on a request: there is more to send, or the reply is known.
pub ghost enum ProgressModel<T> {
    Ask(RunModel<T>),
    Finished(ReplyModel<ResponseModel<T>>),
}

/// The response once every text has its vector.
pub open spec fn response_model<T>(run: RunModel<T>) -> ResponseModel<T> {
    ResponseModel {
        object: "list"@,
        data: run.data,
        model: run.model,
        prompt_tokens: run.tokens as int,
        total_tokens: run.tokens as int,
    }
}

/// Goes on with the next text, or replies where there is none.
pub open spec fn go_on<T>(run: RunModel<T>) -> ProgressModel<T> {
    if run.data.len() < run.inputs.len() {
        ProgressModel::Ask(run)
    } else {
        ProgressModel::Finished(ReplyModel::Json(response_model(run)))
    }
}

/// The work on a request, before anything was sent.
pub open spec fn start_model<T>(inputs: Seq<Seq<char>>, model: Seq<char>) -> ProgressModel<T> {
    go_on(RunModel { inputs, model, data: Seq::empty(), tokens: 0 })
}

/// The text of a reply, where it could be read.
pub open spec fn body_text<T>(body: Option<ReplyBody<T>>) -> Option<Seq<char>> {
    match body {
        Some(b) => Some(b.text@),
        None => None,
    }
}

/// The reply to an exchange about the text at `index` that brought no vector.
pub open spec fn failure_model<T>(index: int, exchange: Exchange<T>) -> ReplyModel<
    ResponseModel<T>,
> {
    match exchange {
        Exchange::SendFailed => ReplyModel::Fault(
            "Failed to call llama.cpp server for embedding"@,
        ),
        Exchange::Replied { status, body } => if !is_success_code(status) {
            server_error_model(
                forwarded_code(status),
                "Failed to get embedding for input "@ + decimal(index as nat) + ": "@
                    + error_text_model(body_text(body)),
            )
        } else if body is None {
            ReplyModel::Fault("Failed to read response"@)
        } else if body->0.items is None {
            ReplyModel::Fault("Failed to parse llama.cpp embedding response"@)
        } else {
            server_error_model(
                INTERNAL_SERVER_ERROR,
                "No embedding data returned for input "@ + decimal(index as nat),
            )
        },
    }
}

/// The work on a request after the exchange about the current text.
pub open spec fn advance_model<T>(run: RunModel<T>, exchange: Exchange<T>) -> ProgressModel<T> {
    match vector_from(exchange) {
        Some(embedding) => go_on(
            RunModel {
                data: run.data.push(
                    DatumModel {
                        object: "embedding"@,
                        embedding,
                        index: run.data.len() as int,
                    },
                ),
                tokens: run.tokens + text_tokens(run.current()),
                ..run
            },
        ),
        None => ProgressModel::Finished(failure_model(run.data.len() as int, exchange)),
    }
}

/// The texts of a request.
pub open spec fn texts_model(input: Seq<String>) -> Seq<Seq<char>> {
    input.map_values(|t: String| t@)
}

/// The work on a request of which some text is still to be sent.
pub struct EmbeddingRun<T> {
    input: Vec<String>,
    model: String,
    data: Vec<EmbeddingData<T>>,
    total_tokens: u32,
}

impl<T> View for EmbeddingRun<T> {
    type V = RunModel<T>;

    closed spec fn view(&self) -> RunModel<T> {
        RunModel {
            inputs: texts_model(self.input@),
            model: self.model@,
            data: data_model(self.data@),
            tokens: self.total_tokens as nat,
        }
    }
}

/// The work on a request: there is more to send, or the reply is known.
pub enum Progress<T> {
    Ask(EmbeddingRun<T>),
    Finished(Reply<EmbeddingResponse<T>>),
}

impl<T> View for Progress<T> {
    type V = ProgressModel<T>;

    open spec fn view(&self) -> ProgressModel<T> {
        match self {
            Progress::Ask(run) => ProgressModel::Ask(run@),
            Progress::Finished(reply) => ProgressModel::Finished(reply@),
        }
    }
}

impl<T> EmbeddingRun<T> {
    #[verifier::type_invariant]
    spec fn in_progress(self) -> bool {
        self@.well_formed()
    }

    /// Goes on with the next text, or replies where there is none.
    fn go_on(
        input: Vec<String>,
        model: String,
        data: Vec<EmbeddingData<T>>,
        tokens: u32,
    ) -> (r: Progress<T>)
        requires
            data@.len() <= input@.len(),
            data_in_order(data_model(data@)),
            tokens == total_tokens(texts_model(input@).take(data@.len() as int)),
        ensures
            r@ == go_on(
                RunModel {
                    inputs: texts_model(input@),
                    model: model@,
                    data: data_model(data@),
                    tokens: tokens as nat,
                },
            ),
    {
        if data.len() < input.len() {
            Progress::Ask(EmbeddingRun { input, model, data, total_tokens: tokens })
        } else {
            let usage = Usage { prompt_tokens: tokens, total_tokens: tokens };
            Progress::Finished(
                Reply::Json(EmbeddingResponse { object: "list".to_string(), data, model, usage }),
            )
        }
    }

    /// Starts the work on a request. Without an HTTP client there is no work,
    /// only a reply.
    pub fn start(request: EmbeddingRequest, has_client: bool) -> (r: Progress<T>)
        ensures
            r@ == (if has_client {
                start_model::<T>(texts_model(request.input@), request.model@)
            } else {
                ProgressModel::Finished(ReplyModel::Fault("Failed to create HTTP client"@))
            }),
    {
        if !has_client {
            return Progress::Finished(Reply::Fault("Failed to create HTTP client".to_string()));
        }
        let data: Vec<EmbeddingData<T>> = Vec::new();
        proof {
            assert(data_model(data@) =~= Seq::empty());
        }
        EmbeddingRun::go_on(request.input, request.model, data, 0)
    }

    /// What to send next.
    pub fn request(&self) -> (r: LlamaCppEmbeddingRequest)
        ensures
            self@.well_formed(),
            r.content@ == self@.current(),
            r.content@ == self@.inputs[self@.data.len() as int],
    {
        proof {
            use_type_invariant(self);
        }
        LlamaCppEmbeddingRequest { content: self.input[self.data.len()].clone() }
    }

    /// The tokens of the current text.
    fn current_tokens(&self) -> (r: u32)
        ensures
            r == text_tokens(self@.current()),
    {
        proof {
            use_type_invariant(self);
        }
        estimate_tokens(self.input[self.data.len()].as_str().as_bytes().len())
    }

    /// Whether the count of tokens has room for those of the current text.
    pub fn tokens_fit(&self) -> (r: bool)
        ensures
            r == self@.tokens_fit(),
            r <==> self@.tokens + estimated_tokens(
                encode_utf8(self@.inputs[self@.data.len() as int]).len(),
            ) <= 0xffff_ffff,
    {
        self.current_tokens() <= u32::MAX - self.total_tokens
    }

    /// Takes the exchange about the current text. Where it brought a vector, the
    /// count of tokens must have room for those of the text.
    pub fn advance(self, exchange: Exchange<T>) -> (r: Progress<T>)
        requires
            vector_from(exchange) is Some ==> self@.tokens_fit(),
        ensures
            r@ == advance_model(self@, exchange),
    {
        proof {
            use_type_invariant(&self);
        }
        let index: usize = self.data.len();
        let tokens: u32 = self.current_tokens();
        match exchange {
            Exchange::SendFailed => Progress::Finished(
                Reply::Fault("Failed to call llama.cpp server for embedding".to_string()),
            ),
            Exchange::Replied { status, body } => {
                if !is_success(status) {
                    let text: Option<String> = match body {
                        Some(b) => Some(b.text),
                        None => None,
                    };
                    let mut message = "Failed to get embedding for input ".to_string();
                    message.append(decimal_text(index).as_str());
                    message.append(": ");
                    message.append(error_text(text).as_str());
                    return Progress::Finished(server_error(forwarded_status(status), message));
                }
                let items = match body {
                    None => {
                        return Progress::Finished(
                            Reply::Fault("Failed to read response".to_string()),
                        );
                    },
                    Some(b) => b.items,
                };
                let items = match items {
                    None => {
                        return Progress::Finished(
                            Reply::Fault(
                                "Failed to parse llama.cpp embedding response".to_string(),
                            ),
                        );
                    },
                    Some(items) => items,
                };
                match take_vector(items) {
                    Some(embedding) => {
                        let ghost before = self@;
                        let mut data = self.data;
                        let total: u32 = self.total_tokens + tokens;
                        data.push(
                            EmbeddingData { object: "embedding".to_string(), embedding, index },
                        );
                        proof {
                            let datum = DatumModel {
                                object: "embedding"@,
                                embedding: embedding@,
                                index: index as int,
                            };
                            assert(data_model(data@) =~= before.data.push(datum));
                            let taken = before.inputs.take(index + 1);
                            assert(taken.drop_last() =~= before.inputs.take(index as int));
                        }
                        EmbeddingRun::go_on(self.input, self.model, data, total)
                    },
                    None => {
                        let mut message = "No embedding data returned for input ".to_string();
                        message.append(decimal_text(index).as_str());
                        Progress::Finished(server_error(INTERNAL_SERVER_ERROR, message))
                    },
                }
            },
        }
    }
}

/// The work after a number of exchanges. Once the reply is known nothing more is
/// sent, and no exchange changes it.
pub open spec fn after<T>(
    start: ProgressModel<T>,
    exchanges: Seq<Exchange<T>>,
) -> ProgressModel<T>
    decreases exchanges.len(),
{
    if exchanges.len() == 0 {
        start
    } else {
        match after(start, exchanges.drop_last()) {
            ProgressModel::Ask(run) => advance_model(run, exchanges.last()),
            ProgressModel::Finished(reply) => ProgressModel::Finished(reply),
        }
    }
}

/// Each of the exchanges brought a vector.
pub open spec fn all_brought_vectors<T>(exchanges: Seq<Exchange<T>>) -> bool {
    forall|i: int| 0 <= i < exchanges.len() ==> vector_from(#[trigger] exchanges[i]) is Some
}

/// The vectors that the exchanges brought, each with the place of its text.
pub open spec fn vectors_brought<T>(exchanges: Seq<Exchange<T>>) -> Seq<DatumModel<T>> {
    Seq::new(
        exchanges.len(),
        |i: int|
            DatumModel {
                object: "embedding"@,
                embedding: vector_from(exchanges[i])->0,
                index: i,
            },
    )
}

/// The work after exchanges about the first texts that each brought a vector:
/// it holds those vectors and the tokens of those texts, and goes on with the
/// next text.
pub proof fn lemma_after_vectors<T>(
    inputs: Seq<Seq<char>>,
    model: Seq<char>,
    exchanges: Seq<Exchange<T>>,
)
    requires
        exchanges.len() <= inputs.len(),
        all_brought_vectors(exchanges),
    ensures
        after(start_model::<T>(inputs, model), exchanges) == go_on(
            RunModel {
                inputs,
                model,
                data: vectors_brought(exchanges),
                tokens: total_tokens(inputs.take(exchanges.len() as int)),
            },
        ),
    decreases exchanges.len(),
{
    if exchanges.len() == 0 {
        assert(vectors_brought(exchanges) =~= Seq::<DatumModel<T>>::empty());
    } else {
        let earlier = exchanges.drop_last();
        let n = exchanges.len() as int;
        assert forall|i: int| 0 <= i < earlier.len() implies vector_from(
            #[trigger] earlier[i],
        ) is Some by {
            assert(earlier[i] == exchanges[i]);
        }
        lemma_after_vectors(inputs, model, earlier);
        assert(vector_from(exchanges[n - 1]) is Some);
        assert(inputs.take(n).drop_last() =~= inputs.take(n - 1));
        assert(vectors_brought(exchanges) =~= vectors_brought(earlier).push(
            DatumModel {
                object: "embedding"@,
                embedding: vector_from(exchanges.last())->0,
                index: n - 1,
            },
        ));
    }
}

/// A request whose texts all got a vector is answered with one vector per text,
/// in the order of the texts and each with the place of its text, the model that
/// was asked for, and the estimated tokens of all the texts.
pub proof fn lemma_every_text_gets_its_vector<T>(
    inputs: Seq<Seq<char>>,
    model: Seq<char>,
    exchanges: Seq<Exchange<T>>,
)
    requires
        exchanges.len() == inputs.len(),
        all_brought_vectors(exchanges),
    ensures
        after(start_model::<T>(inputs, model), exchanges) == ProgressModel::Finished(
            ReplyModel::Json(
                ResponseModel {
                    object: "list"@,
                    data: vectors_brought(exchanges),
                    model,
                    prompt_tokens: total_tokens(inputs) as int,
                    total_tokens: total_tokens(inputs) as int,
                },
            ),
        ),
        vectors_brought(exchanges).len() == inputs.len(),
        data_in_order(vectors_brought(exchanges)),
{
    lemma_after_vectors(inputs, model, exchanges);
    assert(inputs.take(inputs.len() as int) =~= inputs);
}

/// The first exchange that brings no vector decides the reply, whatever would
/// have followed.
pub proof fn lemma_first_failure_decides<T>(
    inputs: Seq<Seq<char>>,
    model: Seq<char>,
    exchanges: Seq<Exchange<T>>,
    k: int,
)
    requires
        0 <= k < exchanges.len(),
        k < inputs.len(),
        all_brought_vectors(exchanges.take(k)),
        vector_from(exchanges[k]) is None,
    ensures
        after(start_model::<T>(inputs, model), exchanges) == ProgressModel::Finished(
            failure_model(k, exchanges[k]),
        ),
    decreases exchanges.len(),
{
    let earlier = exchanges.drop_last();
    if k == exchanges.len() - 1 {
        assert(earlier =~= exchanges.take(k));
        lemma_after_vectors(inputs, model, earlier);
    } else {
        assert(earlier.take(k) =~= exchanges.take(k));
        lemma_first_failure_decides(inputs, model, earlier, k);
    }
}

/// A reply to a failed exchange is never a success: it is an internal server
/// error or carries the status that the server refused with.
pub proof fn lemma_failure_is_no_success<T>(index: int, exchange: Exchange<T>)
    ensures
        failure_model(index, exchange) !is Json,
        failure_model(index, exchange) matches ReplyModel::Error { status, .. }
            ==> !is_success_code(status),
{
}

/// The exchange about the current text keeps the work well formed.
pub proof fn lemma_advance_well_formed<T>(run: RunModel<T>, exchange: Exchange<T>)
    requires
        run.well_formed(),
    ensures
        advance_model(run, exchange) matches ProgressModel::Ask(next) ==> next.well_formed()
            && next.inputs == run.inputs && next.model == run.model && next.data.len()
            == run.data.len() + 1,
{
    if let ProgressModel::Ask(next) = advance_model(run, exchange) {
        let n = next.data.len() as int;
        assert(run.inputs.take(n).drop_last() =~= run.inputs.take(n - 1));
    }
}

/// The model of the texts holds every one, in its place.
pub proof fn lemma_texts(input: Seq<String>)
    ensures
        texts_model(input).len() == input.len(),
        forall|i: int| 0 <= i < input.len() ==> #[trigger] texts_model(input)[i] == input[i]@,
{
}

/// The model of a response shows all that is sent.
pub proof fn lemma_response_shown<T>(response: EmbeddingResponse<T>)
    ensures
        response@.object == response.object@,
        response@.model == response.model@,
        response@.prompt_tokens == response.usage.prompt_tokens,
        response@.total_tokens == response.usage.total_tokens,
        response@.data.len() == response.data@.len(),
        forall|i: int|
            0 <= i < response.data@.len() ==> {
                &&& (#[trigger] response@.data[i]).object == response.data@[i].object@
                &&& response@.data[i].embedding == response.data@[i].embedding@
                &&& response@.data[i].index == response.data@[i].index
            },
{
}

/// The model of the work shows whether there is more to send, or the reply.
pub proof fn lemma_progress_shown<T>(progress: Progress<T>)
    ensures
        progress matches Progress::Ask(run) ==> progress@ == ProgressModel::Ask(run@),
        progress matches Progress::Finished(reply) ==> progress@ == ProgressModel::Finished(
            reply@,
        ),
{
}

/// An exchange brings a vector exactly if the server reports success and answers with
/// at least one item. The vector is the whole first row of the first item, component
/// by component; it is empty where that item has no row.
pub proof fn lemma_vector_brought<T>(status: u16, body: Option<ReplyBody<T>>)
    ensures
        vector_from(Exchange::<T>::SendFailed) is None,
        vector_from(Exchange::Replied { status, body }) is Some <==> (200 <= status < 300
            && body is Some && body->0.items is Some && body->0.items->0@.len() > 0),
        vector_from(Exchange::Replied { status, body }) matches Some(vector) ==> ({
            let rows = body->0.items->0@[0].embedding@;
            &&& rows.len() > 0 ==> vector.len() == rows[0]@.len()
            &&& rows.len() > 0 ==> forall|k: int|
                0 <= k < vector.len() ==> #[trigger] vector[k] == rows[0]@[k]
            &&& rows.len() == 0 ==> vector.len() == 0
        }),
{
}

/// A text counts by its bytes in UTF-8, and texts count together what they count one
/// by one.
pub proof fn lemma_tokens_add_up(first: Seq<Seq<char>>, text: Seq<char>, rest: Seq<Seq<char>>)
    ensures
        total_tokens(Seq::empty()) == 0,
        total_tokens(seq![text]) == estimated_tokens(encode_utf8(text).len()),
        total_tokens(first + rest) == total_tokens(first) + total_tokens(rest),
    decreases rest.len(),
{
    assert(seq![text].drop_last() =~= Seq::empty());
    assert(total_tokens(Seq::empty()) == 0);
    if rest.len() == 0 {
        assert(first + rest =~= first);
    } else {
        assert((first + rest).drop_last() =~= first + rest.drop_last());
        lemma_tokens_add_up(first, text, rest.drop_last());
    }
}

/// The work starts with the first text and nothing counted; a request without texts
/// is answered at once, with an empty list.
pub proof fn lemma_start<T>(inputs: Seq<Seq<char>>, model: Seq<char>)
    ensures
        inputs.len() > 0 ==> (start_model::<T>(inputs, model) matches ProgressModel::Ask(run)
            && run.inputs == inputs && run.model == model && run.data.len() == 0 && run.tokens == 0
            && run.current() == inputs[0]),
        inputs.len() == 0 ==> (start_model::<T>(inputs, model) matches ProgressModel::Finished(
            ReplyModel::Json(body),
        ) && body.object == "list"@ && body.data.len() == 0 && body.model == model
            && body.prompt_tokens == 0 && body.total_tokens == 0),
{
}

/// A vector that was brought is put behind those that were brought before, which stay
/// as they are, with the place of its text; and the tokens of that text are added. The
/// work goes on with the next text, or is answered where there is none.
pub proof fn lemma_vector_is_added<T>(
    run: RunModel<T>,
    status: u16,
    text: String,
    items: Vec<LlamaCppEmbeddingResponseItem<T>>,
)
    requires
        run.data.len() < run.inputs.len(),
        200 <= status < 300,
        items@.len() > 0,
    ensures
        ({
            let n = run.data.len() as int;
            let tokens = run.tokens + estimated_tokens(encode_utf8(run.inputs[n]).len());
            let exchange = Exchange::Replied {
                status,
                body: Some(ReplyBody { text, items: Some(items) }),
            };
            let (data, went_on) = match advance_model(run, exchange) {
                ProgressModel::Ask(next) => (next.data, true),
                ProgressModel::Finished(ReplyModel::Json(body)) => (body.data, false),
                ProgressModel::Finished(_) => (Seq::empty(), false),
            };
            &&& run.current() == run.inputs[n]
            &&& went_on <==> n + 1 < run.inputs.len()
            &&& data.len() == n + 1
            &&& forall|i: int| 0 <= i < n ==> #[trigger] data[i] == run.data[i]
            &&& data[n].object == "embedding"@
            &&& data[n].index == n
            &&& items@[0].embedding@.len() > 0 ==> data[n].embedding
                =~= items@[0].embedding@[0]@
            &&& items@[0].embedding@.len() == 0 ==> data[n].embedding.len() == 0
            &&& advance_model(run, exchange) matches ProgressModel::Ask(next) ==> next.inputs
                == run.inputs && next.model == run.model && next.tokens == tokens
            &&& advance_model(run, exchange) matches ProgressModel::Finished(reply) ==> (
            reply matches ReplyModel::Json(body) && body.object == "list"@ && body.model
                == run.model && body.prompt_tokens == tokens && body.total_tokens == tokens)
        }),
{
}

/// What the client gets where the exchange about a text brought no vector, in so many
/// words. The text is named by its place.
pub proof fn lemma_embedding_failures<T>(
    run: RunModel<T>,
    status: u16,
    body: Option<ReplyBody<T>>,
    text: String,
    items: Vec<LlamaCppEmbeddingResponseItem<T>>,
)
    ensures
        advance_model(run, Exchange::SendFailed) == ProgressModel::<T>::Finished(
            ReplyModel::Fault("Failed to call llama.cpp server for embedding"@),
        ),
        200 <= status < 300 ==> advance_model(run, Exchange::Replied { status, body: None })
            == ProgressModel::<T>::Finished(ReplyModel::Fault("Failed to read response"@)),
        200 <= status < 300 ==> advance_model(
            run,
            Exchange::Replied { status, body: Some(ReplyBody { text, items: None }) },
        ) == ProgressModel::<T>::Finished(
            ReplyModel::Fault("Failed to parse llama.cpp embedding response"@),
        ),
        200 <= status < 300 && items@.len() == 0 ==> (advance_model(
            run,
            Exchange::Replied { status, body: Some(ReplyBody { text, items: Some(items) }) },
        ) matches ProgressModel::Finished(ReplyModel::Error { status: sent, message, kind })
            && sent == 500 && message == "No embedding data returned for input "@ + decimal(
            run.data.len(),
        ) && kind == "server_error"@),
        !(200 <= status < 300) ==> (advance_model(run, Exchange::Replied { status, body })
            matches ProgressModel::Finished(ReplyModel::Error { status: sent, message, kind }) && ({
            &&& 100 <= status < 1000 ==> sent == status
            &&& !(100 <= status < 1000) ==> sent == 500
            &&& body matches Some(b) ==> message == "Failed to get embedding for input "@ + decimal(
                run.data.len(),
            ) + ": "@ + b.text@
            &&& body is None ==> message == "Failed to get embedding for input "@ + decimal(
                run.data.len(),
            ) + ": "@ + "Unknown error"@
            &&& kind == "server_error"@
        })),
{
}

/// What a client is told that an input, and an item of it, should have been.
pub proof fn lemma_expected_inputs()
    ensures
        EXPECTED_INPUT@ == "a string or an array of strings"@,
        EXPECTED_ITEM@ == "a string"@,
{
}

} // verus!
