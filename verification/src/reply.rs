//! What a handler answers, and the HTTP status codes that it reads and sends.
use vstd::prelude::*;

verus! {

/// The status sent for a code that is none.
pub const INTERNAL_SERVER_ERROR: u16 = 500;

/// The codes that HTTP libraries take for a status: those of three digits.
pub open spec fn is_status(code: u16) -> bool {
    100 <= code < 1000
}

/// The codes that report success.
pub open spec fn is_success_code(code: u16) -> bool {
    200 <= code < 300
}

/// The status with which an upstream code is passed on.
pub open spec fn forwarded_code(code: u16) -> u16 {
    if is_status(code) {
        code
    } else {
        INTERNAL_SERVER_ERROR
    }
}

/// `reqwest::StatusCode::is_success`: for a code of three digits, whether it is
/// one of 200 to 299. No `StatusCode` has any other code: there is no answer.
#[verifier::external_body]
fn status_code_is_success(code: u16) -> (r: Option<bool>)
    ensures
        r == (if is_status(code) {
            Some(is_success_code(code))
        } else {
            None
        }),
{
    match reqwest::StatusCode::from_u16(code) {
        Ok(status) => Some(status.is_success()),
        Err(_) => None,
    }
}

/// `actix_web::http::StatusCode::from_u16`: the status with this code, which
/// exists for the codes of three digits and for no others.
#[verifier::external_body]
fn status_code_from_u16(code: u16) -> (r: Option<u16>)
    ensures
        r == (if is_status(code) {
            Some(code)
        } else {
            None
        }),
{
    match actix_web::http::StatusCode::from_u16(code) {
        Ok(status) => Some(status.as_u16()),
        Err(_) => None,
    }
}

/// Whether an upstream status code reports success.
pub fn is_success(code: u16) -> (r: bool)
    ensures
        r == is_success_code(code),
        r == (200 <= code < 300),
{
    match status_code_is_success(code) {
        Some(success) => success,
        None => false,
    }
}

/// The status with which an upstream code is passed on to the client: the same
/// code where there is such a status, an internal server error otherwise.
pub fn forwarded_status(code: u16) -> (r: u16)
    ensures
        r == forwarded_code(code),
        100 <= code < 1000 ==> r == code,
        !(100 <= code < 1000) ==> r == 500,
{
    match status_code_from_u16(code) {
        Some(status) => status,
        None => INTERNAL_SERVER_ERROR,
    }
}

/// The JSON object that describes a failure, sent as the member `error`.
pub struct ErrorBody {
    pub message: String,
    /// Sent as the member `type`.
    pub kind: String,
}

/// What a handler answers.
pub enum Reply<B> {
    /// Status 200 with this body as JSON.
    Json(B),
    /// This status with the error as JSON.
    Error { status: u16, body: ErrorBody },
    /// An internal server error with this message as plain text.
    Fault(String),
}

/// A reply, by the texts that it holds and the model of its body.
pub ghost enum ReplyModel<B> {
    Json(B),
    Error { status: u16, message: Seq<char>, kind: Seq<char> },
    Fault(Seq<char>),
}

impl<B: View> View for Reply<B> {
    type V = ReplyModel<B::V>;

    open spec fn view(&self) -> ReplyModel<B::V> {
        match self {
            Reply::Json(body) => ReplyModel::Json(body@),
            Reply::Error { status, body } => ReplyModel::Error {
                status: *status,
                message: body.message@,
                kind: body.kind@,
            },
            Reply::Fault(message) => ReplyModel::Fault(message@),
        }
    }
}

/// The reply that reports a failure of the server behind this one.
pub open spec fn server_error_model<B>(status: u16, message: Seq<char>) -> ReplyModel<B> {
    ReplyModel::Error { status, message, kind: "server_error"@ }
}

/// The reply that reports a failure of the server behind this one.
pub fn server_error<B: View>(status: u16, message: String) -> (r: Reply<B>)
    ensures
        r@ == server_error_model::<B::V>(status, message@),
        r matches Reply::Error { status: sent, body } && sent == status && body.message@
            == message@ && body.kind@ == "server_error"@,
{
    Reply::Error { status, body: ErrorBody { message, kind: "server_error".to_string() } }
}

/// The text of an error that the upstream server sent, where it could be read.
pub open spec fn error_text_model(text: Option<Seq<char>>) -> Seq<char> {
    match text {
        Some(t) => t,
        None => "Unknown error"@,
    }
}

/// The model of a text that may be missing.
pub open spec fn optional_text(text: Option<String>) -> Option<Seq<char>> {
    match text {
        Some(t) => Some(t@),
        None => None,
    }
}

/// The text of an error that the upstream server sent; a stand-in where it could
/// not be read.
pub fn error_text(text: Option<String>) -> (r: String)
    ensures
        r@ == error_text_model(optional_text(text)),
        text matches Some(t) ==> r@ == t@,
        text is None ==> r@ == "Unknown error"@,
{
    match text {
        Some(t) => t,
        None => "Unknown error".to_string(),
    }
}

/// A status that exists is passed on unchanged, what is passed on is always a
/// status, and a failure is never passed on as a success.
pub proof fn lemma_forwarded_is_status(code: u16)
    ensures
        is_status(forwarded_code(code)),
        is_status(code) ==> forwarded_code(code) == code,
        !is_success_code(code) ==> !is_success_code(forwarded_code(code)),
{
}

/// Success is a code of 200 to 299. A code of three digits is passed on as it is,
/// and 500 in place of any other.
pub proof fn lemma_status_codes(code: u16)
    ensures
        is_status(code) <==> 100 <= code < 1000,
        is_success_code(code) <==> 200 <= code < 300,
        100 <= code < 1000 ==> forwarded_code(code) == code,
        !(100 <= code < 1000) ==> forwarded_code(code) == 500,
{
}

/// The model of a reply shows all that is sent: the body, or the status with both
/// texts of the error, or the text of the fault.
pub proof fn lemma_reply_shown<B: View>(reply: Reply<B>)
    ensures
        reply matches Reply::Json(body) ==> reply@ == ReplyModel::Json(body@),
        reply matches Reply::Error { status, body } ==> (reply@ matches ReplyModel::Error {
            status: shown,
            message,
            kind,
        } && shown == status && message == body.message@ && kind == body.kind@),
        reply matches Reply::Fault(text) ==> (reply@ matches ReplyModel::Fault(shown) && shown
            == text@),
{
}

/// A failure is reported with the given status and message, as a server error.
pub proof fn lemma_server_error<B>(status: u16, message: Seq<char>)
    ensures
        server_error_model::<B>(status, message) matches ReplyModel::Error {
            status: sent,
            message: text,
            kind,
        } && sent == status && text == message && kind == "server_error"@,
{
}

/// An error text that could be read is kept as it is; in place of one that could
/// not stands `Unknown error`.
pub proof fn lemma_error_text(text: Option<String>)
    ensures
        text matches Some(t) ==> error_text_model(optional_text(text)) == t@,
        text is None ==> error_text_model(optional_text(text)) == "Unknown error"@,
{
}

} // verus!
