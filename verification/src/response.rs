//! The classification of a reply: success with the document it carries, or
//! failure with a message and a cause.
//!
//! The status alone decides between the two once the body has been read as
//! JSON. No member of the body is looked at for that, and the message of a
//! failure is the only place where what the server said of it appears.

use crate::api::TradersApi;
use crate::json::{
    error_message, json_text, member_text2, parse_json, parse_view, parsed_json, text_at2,
};
use crate::text::{remove_char, without_char};
use vstd::prelude::*;
use vstd::string::*;

verus! {

/// Why an operation failed.
#[derive(Clone, Copy, Debug, PartialEq, Eq, Structural)]
pub enum Cause {
    /// No reply was obtained.
    TransportFailure,
    /// The body of the reply is no JSON, or lacks what was looked for in it.
    MalformedResponse,
    /// The reply has a status other than 200 and 201.
    ApiError,
    /// The command cannot be run as things stand: no token, or the user
    /// declined.
    PreconditionFailure,
    /// The session file cannot be read or written.
    LocalIOFailure,
}

/// A failure: what to tell the user, and the cause.
#[derive(Debug)]
pub struct Failure {
    pub message: String,
    pub cause: Cause,
}

/// A failure as text.
pub struct FailureView {
    pub message: Seq<char>,
    pub cause: Cause,
}

impl View for Failure {
    type V = FailureView;

    open spec fn view(&self) -> FailureView {
        FailureView { message: self.message@, cause: self.cause }
    }
}

impl Failure {
    /// A failure with a message and a cause.
    pub fn new(message: &str, cause: Cause) -> (r: Failure)
        ensures
            r@ == (FailureView { message: message@, cause }),
    {
        Failure { message: String::from_str(message), cause }
    }

    /// The message.
    pub fn to_text(&self) -> (r: String)
        ensures
            r@ == self@.message,
    {
        self.message.clone()
    }
}

/// What came of sending a request.
#[derive(Debug)]
pub enum Exchange {
    /// A reply, with its status and its body.
    Reply { status: u16, body: String },
    /// No reply, and the reason.
    Unreachable { message: String },
}

/// A classified reply: the document of a success, or a failure.
pub type ClassifiedResult = Result<serde_json::Value, Failure>;

/// A classified reply as texts: the text of the document, or the failure.
pub open spec fn outcome_view(r: ClassifiedResult) -> Result<Seq<char>, FailureView> {
    match r {
        Ok(doc) => Ok(json_text(doc)),
        Err(failure) => Err(failure@),
    }
}

/// The message of a failure that the server reported: what was attempted, a
/// dash, and the text of the server's message without its quotation marks.
pub open spec fn api_error_text(label: Seq<char>, rendered: Seq<char>) -> Seq<char> {
    label + " - "@ + without_char(rendered, '"')
}

/// The failure that the server reported.
pub open spec fn api_failure_view(label: Seq<char>, rendered: Seq<char>) -> FailureView {
    FailureView { message: api_error_text(label, rendered), cause: Cause::ApiError }
}

/// Whether a status stands for success: 200 and 201 do, and no other.
pub open spec fn is_success(status: u16) -> bool {
    status == 200 || status == 201
}

/// The classification of a reply whose body has been read.
///
/// A body that is no JSON is a malformed response whatever the status. A
/// JSON body is the success itself under a status of success, and under any
/// other status the source of the failure's message: the text of its member
/// `message` under `error`.
pub open spec fn classified(
    status: u16,
    parsed: Result<Seq<char>, Seq<char>>,
    label: Seq<char>,
) -> Result<Seq<char>, FailureView> {
    match parsed {
        Err(message) => Err(FailureView { message, cause: Cause::MalformedResponse }),
        Ok(doc) => if is_success(status) {
            Ok(doc)
        } else {
            Err(api_failure_view(label, member_text2(doc, "error"@, "message"@)))
        },
    }
}

/// The failure that the server reported, from what was attempted and the
/// text of the server's message.
pub fn api_failure(error_msg: &str, rendered: &str) -> (r: Failure)
    ensures
        r@ == api_failure_view(error_msg@, rendered@),
{
    let mut message = String::from_str(error_msg);
    message.append(" - ");
    let plain = remove_char(rendered, '"');
    message.append(plain.as_str());
    Failure { message, cause: Cause::ApiError }
}

/// Classifies a reply whose body has been read as JSON, or could not be.
pub fn classify(
    status: u16,
    parsed: Result<serde_json::Value, serde_json::Error>,
    error_msg: &str,
) -> (r: ClassifiedResult)
    ensures
        outcome_view(r) == classified(status, parse_view(parsed), error_msg@),
{
    match parsed {
        Err(error) => Err(
            Failure { message: error_message(&error), cause: Cause::MalformedResponse },
        ),
        Ok(doc) => {
            if status == 200 || status == 201 {
                Ok(doc)
            } else {
                let rendered = text_at2(&doc, "error", "message");
                Err(api_failure(error_msg, rendered.as_str()))
            }
        },
    }
}

/// Classifies what came of sending a request: no reply is a transport
/// failure with the reason as its message, and a reply is classified by its
/// status and its body.
pub open spec fn classified_exchange(exchange: Exchange, label: Seq<char>) -> Result<
    Seq<char>,
    FailureView,
> {
    match exchange {
        Exchange::Unreachable { message } => Err(
            FailureView { message: message@, cause: Cause::TransportFailure },
        ),
        Exchange::Reply { status, body } => classified(status, parsed_json(body@), label),
    }
}

impl TradersApi {
    /// Classifies a reply by its status and its body. `error_msg` says what
    /// was attempted, and opens the message of a failure that the server
    /// reported.
    pub fn check_response(&self, status: u16, body: &str, error_msg: &str) -> (r:
        ClassifiedResult)
        ensures
            outcome_view(r) == classified(status, parsed_json(body@), error_msg@),
    {
        classify(status, parse_json(body), error_msg)
    }

    /// Classifies what came of sending a request.
    pub fn check_exchange(&self, exchange: Exchange, error_msg: &str) -> (r: ClassifiedResult)
        ensures
            outcome_view(r) == classified_exchange(exchange, error_msg@),
    {
        match exchange {
            Exchange::Unreachable { message } => Err(
                Failure { message, cause: Cause::TransportFailure },
            ),
            Exchange::Reply { status, body } => self.check_response(
                status,
                body.as_str(),
                error_msg,
            ),
        }
    }
}

} // verus!
