//! Responses, and the database errors they are made from.
use vstd::prelude::*;
use crate::structs::{Context, FullContext, FullContextView, Task};

verus! {

/// How a database statement failed: no row where one was expected, or
/// anything else.
#[derive(Debug, Clone, Copy, PartialEq, Eq, Structural)]
pub enum DbError {
    RowNotFound,
    Other,
}

/// The body of a response: a plain text, or a value sent as JSON.
#[derive(Debug)]
pub enum Payload {
    Text(String),
    Context(Context),
    Contexts(Vec<Context>),
    Task(Task),
    Tasks(Vec<Task>),
    FullContexts(Vec<FullContext>),
}

/// A response: an HTTP status and a body.
#[derive(Debug)]
pub struct Response {
    pub status: u16,
    pub payload: Payload,
}

/// The abstract value of a body.
pub enum PayloadView {
    Text(Seq<char>),
    Context(Context),
    Contexts(Seq<Context>),
    Task(Task),
    Tasks(Seq<Task>),
    FullContexts(Seq<FullContextView>),
}

/// The abstract value of a response.
pub struct ResponseView {
    pub status: u16,
    pub payload: PayloadView,
}

impl View for Payload {
    type V = PayloadView;

    open spec fn view(&self) -> PayloadView {
        match self {
            Payload::Text(t) => PayloadView::Text(t@),
            Payload::Context(c) => PayloadView::Context(*c),
            Payload::Contexts(cs) => PayloadView::Contexts(cs@),
            Payload::Task(t) => PayloadView::Task(*t),
            Payload::Tasks(ts) => PayloadView::Tasks(ts@),
            Payload::FullContexts(fs) => PayloadView::FullContexts(
                fs@.map_values(|f: FullContext| f@),
            ),
        }
    }
}

impl View for Response {
    type V = ResponseView;

    open spec fn view(&self) -> ResponseView {
        ResponseView { status: self.status, payload: self.payload@ }
    }
}

/// A response with a plain-text body.
pub open spec fn text_response(status: u16, text: Seq<char>) -> ResponseView {
    ResponseView { status, payload: PayloadView::Text(text) }
}

/// The answer to a failed statement: "not found" when no row was there,
/// "internal server error" otherwise.
pub open spec fn error_response(err: DbError) -> ResponseView {
    match err {
        DbError::RowNotFound => text_response(404, "Not found"@),
        DbError::Other => text_response(500, "Internal Server Error"@),
    }
}

/// The answer when something failed on the server's side.
pub open spec fn internal_error() -> ResponseView {
    text_response(500, "Internal Server Error"@)
}

/// A failed statement is answered 404 "Not found" exactly when no row was
/// there, and 500 "Internal Server Error" for every other failure.
pub proof fn law_error_status(err: DbError)
    ensures
        error_response(err).status == 404 <==> err == DbError::RowNotFound,
        err == DbError::RowNotFound ==> error_response(err) == text_response(404, "Not found"@),
        err != DbError::RowNotFound ==> error_response(err) == text_response(
            500,
            "Internal Server Error"@,
        ),
        internal_error() == text_response(500, "Internal Server Error"@),
{
}

/// Builds a plain-text response.
pub fn text(status: u16, body: &str) -> (r: Response)
    ensures
        r@ == text_response(status, body@),
{
    Response { status, payload: Payload::Text(body.to_owned()) }
}

/// Answers a failed statement: 404 "Not found" when the statement found no
/// row, 500 "Internal Server Error" for any other failure.
pub fn handle_err(err: DbError) -> (r: Response)
    ensures
        r@ == error_response(err),
{
    match err {
        DbError::RowNotFound => text(404, "Not found"),
        DbError::Other => text(500, "Internal Server Error"),
    }
}

/// The 500 "Internal Server Error" response.
pub fn server_error() -> (r: Response)
    ensures
        r@ == internal_error(),
{
    text(500, "Internal Server Error")
}

/// A successful response with a JSON body.
pub fn ok_json(payload: Payload) -> (r: Response)
    ensures
        r@ == (ResponseView { status: 200, payload: payload@ }),
{
    Response { status: 200, payload }
}

} // verus!
