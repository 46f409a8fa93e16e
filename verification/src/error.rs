//! Refusals and replies.

use crate::json::{Json, JsonObject, JsonView};
use vstd::prelude::*;

verus! {

/// Why a request is refused: an HTTP status and a message.
#[derive(Debug)]
pub struct ApiError {
    pub status: u16,
    pub message: String,
}

/// A refusal with its message as characters.
pub struct ErrorView {
    pub status: int,
    pub message: Seq<char>,
}

impl View for ApiError {
    type V = ErrorView;

    open spec fn view(&self) -> ErrorView {
        ErrorView { status: self.status as int, message: self.message@ }
    }
}

/// The request is malformed.
pub open spec fn bad_request(message: Seq<char>) -> ErrorView {
    ErrorView { status: 400, message }
}

/// The request is not authenticated.
pub open spec fn unauthorized(message: Seq<char>) -> ErrorView {
    ErrorView { status: 401, message }
}

/// There is nothing there.
pub open spec fn not_found(message: Seq<char>) -> ErrorView {
    ErrorView { status: 404, message }
}

/// The request conflicts with what is there.
pub open spec fn conflict(message: Seq<char>) -> ErrorView {
    ErrorView { status: 409, message }
}

/// The server failed.
pub open spec fn internal(message: Seq<char>) -> ErrorView {
    ErrorView { status: 500, message }
}

/// What a request is answered: a status, a body, and the cookie that it sets.
#[derive(Debug)]
pub struct Reply {
    pub status: u16,
    pub body: Json,
    pub cookie: Option<String>,
}

/// An answer as a mathematical value.
pub struct ReplyView {
    pub status: int,
    pub body: JsonView,
    pub cookie: Option<Seq<char>>,
}

impl View for Reply {
    type V = ReplyView;

    open spec fn view(&self) -> ReplyView {
        ReplyView {
            status: self.status as int,
            body: self.body@,
            cookie: crate::json::string_view(self.cookie),
        }
    }
}

/// An answer with a body and nothing more.
pub open spec fn answer(status: int, body: JsonView) -> ReplyView {
    ReplyView { status, body, cookie: None }
}

/// The answer that a refused request gets.
pub open spec fn refusal(error: ErrorView) -> ReplyView {
    answer(
        error.status,
        JsonView::Object(
            map![
                "error"@ => JsonView::Text(error.message),
                "code"@ => JsonView::Text(
                    if error.status == 500 {
                        "DATABASE_ERROR"@
                    } else {
                        "REQUEST_ERROR"@
                    },
                ),
            ],
        ),
    )
}

/// What a request comes to: a body, or a refusal.
pub open spec fn outcome(r: Result<Json, ApiError>) -> Result<JsonView, ErrorView> {
    match r {
        Ok(body) => Ok(body@),
        Err(error) => Err(error@),
    }
}

impl Reply {
    /// An answer with status 200.
    pub fn ok(body: Json) -> (r: Reply)
        ensures
            r@ == answer(200, body@),
    {
        Reply { status: 200, body, cookie: None }
    }

    /// An answer with a status of its own.
    pub fn with_status(status: u16, body: Json) -> (r: Reply)
        ensures
            r@ == answer(status as int, body@),
    {
        Reply { status, body, cookie: None }
    }
}

impl ApiError {
    pub fn bad_request(message: &str) -> (r: ApiError)
        ensures
            r@ == bad_request(message@),
    {
        ApiError { status: 400, message: message.to_owned() }
    }

    pub fn unauthorized(message: &str) -> (r: ApiError)
        ensures
            r@ == unauthorized(message@),
    {
        ApiError { status: 401, message: message.to_owned() }
    }

    pub fn conflict(message: &str) -> (r: ApiError)
        ensures
            r@ == conflict(message@),
    {
        ApiError { status: 409, message: message.to_owned() }
    }

    pub fn not_found(message: &str) -> (r: ApiError)
        ensures
            r@ == not_found(message@),
    {
        ApiError { status: 404, message: message.to_owned() }
    }

    pub fn internal(message: &str) -> (r: ApiError)
        ensures
            r@ == internal(message@),
    {
        ApiError { status: 500, message: message.to_owned() }
    }

    /// The answer of a refused request: the message, and a code that tells a failure of the
    /// server from a request that is at fault.
    pub fn into_response(self) -> (r: Reply)
        ensures
            r@ == refusal(self@),
    {
        let code: &str = if self.status == 500 {
            "DATABASE_ERROR"
        } else {
            "REQUEST_ERROR"
        };
        let status: u16 = self.status;
        let body = JsonObject::new().with("error", Json::Text(self.message)).with(
            "code",
            Json::from_text(code),
        );
        Reply::with_status(status, Json::Object(body))
    }
}

// ---------------------------------------------------------------------------------------------
// Laws
// ---------------------------------------------------------------------------------------------

/// Every kind of refusal has its HTTP status and keeps its message.
pub proof fn refusals_have_their_status(message: Seq<char>)
    ensures
        bad_request(message).status == 400 && bad_request(message).message == message,
        unauthorized(message).status == 401 && unauthorized(message).message == message,
        not_found(message).status == 404 && not_found(message).message == message,
        conflict(message).status == 409 && conflict(message).message == message,
        internal(message).status == 500 && internal(message).message == message,
{
}

/// A refused request is answered with the status and the message of its refusal, and with a code
/// that tells a failure of the server from a request that is at fault. No cookie is set.
pub proof fn refusals_are_answered_whole(error: ErrorView)
    ensures
        refusal(error).status == error.status,
        refusal(error).body.text_at("error"@) == Some(error.message),
        refusal(error).body.text_at("code"@) == Some(
            if error.status == 500 {
                "DATABASE_ERROR"@
            } else {
                "REQUEST_ERROR"@
            },
        ),
        refusal(error).cookie is None,
{
    reveal_strlit("error");
    reveal_strlit("code");
    assert("error"@.len() != "code"@.len());
}

/// An answer has the status and the body that it is given, and sets no cookie.
pub proof fn answers_are_what_they_are_given(status: int, body: JsonView)
    ensures
        answer(status, body).status == status,
        answer(status, body).body == body,
        answer(status, body).cookie is None,
{
}

/// What a request comes to is its body, or its refusal with status and message.
pub proof fn outcomes_are_bodies_or_refusals(body: Json, error: ApiError)
    ensures
        outcome(Ok(body)) == Ok::<JsonView, ErrorView>(body@),
        outcome(Err(error)) matches Err(told) && told.status == error.status && told.message
            == error.message@,
{
}

/// An answer is seen with its own status, body and cookie.
pub proof fn replies_are_seen_whole(reply: Reply)
    ensures
        reply@.status == reply.status,
        reply@.body == reply.body@,
        reply.cookie matches Some(cookie) ==> reply@.cookie == Some(cookie@),
        reply.cookie is None ==> reply@.cookie is None,
{
}

} // verus!
