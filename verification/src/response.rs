//! What goes back to the client: an HTTP status and a JSON body.

use vstd::prelude::*;
use vstd::utf8::encode_utf8;
use crate::json::{json_string, quote};

verus! {

/// Status of a request that was served.
pub const OK: u16 = 200;

/// Status of a request that holds a malformed address.
pub const BAD_REQUEST: u16 = 400;

/// Status of a request that an upstream failure kept from being served.
pub const INTERNAL_SERVER_ERROR: u16 = 500;

/// A response of the gateway. The body is a JSON document in UTF-8.
#[derive(Debug, PartialEq, Eq)]
pub struct Response {
    pub status: u16,
    pub body: Vec<u8>,
}

/// The mathematical content of a [`Response`].
pub struct ResponseView {
    pub status: u16,
    pub body: Seq<u8>,
}

impl View for Response {
    type V = ResponseView;

    open spec fn view(&self) -> ResponseView {
        ResponseView { status: self.status, body: self.body@ }
    }
}

impl Clone for Response {
    fn clone(&self) -> (r: Response)
        ensures
            r@ == self@,
    {
        Response { status: self.status, body: self.body.clone() }
    }
}

/// The response that carries `text`, in UTF-8, as its body.
pub open spec fn json_reply(status: u16, text: Seq<char>) -> ResponseView {
    ResponseView { status, body: encode_utf8(text) }
}

/// The error object around an already quoted message: `{"error":<quoted>}`.
pub open spec fn error_object(quoted: Seq<char>) -> Seq<char> {
    "{\"error\":"@ + quoted + "}"@
}

/// The response that reports `message`, which every failure of the gateway
/// has the shape of.
pub open spec fn error_reply(status: u16, message: Seq<char>) -> ResponseView {
    json_reply(status, error_object(json_string(message)))
}

/// `cause` behind `what` and a colon, as in `Failed to get slot: timed out`.
pub open spec fn caused(what: Seq<char>, cause: Seq<char>) -> Seq<char> {
    what + ": "@ + cause
}

/// Writes the error object around a message that is quoted already.
pub fn write_error_object(quoted: &str) -> (text: String)
    ensures
        text@ == error_object(quoted@),
{
    let mut text = "{\"error\":".to_owned();
    text.append(quoted);
    text.append("}");
    text
}

/// Joins what failed and why into one message.
pub fn describe(what: &str, cause: &str) -> (message: String)
    ensures
        message@ == caused(what@, cause@),
{
    let mut message = what.to_owned();
    message.append(": ");
    message.append(cause);
    message
}

impl Response {
    /// The response with the given status whose body is `text` in UTF-8.
    /// The text is taken as it is: to hand in a JSON document is up to the
    /// caller.
    pub fn json(status: u16, text: &str) -> (r: Response)
        ensures
            r@ == json_reply(status, text@),
    {
        Response { status, body: text.as_bytes_vec() }
    }

    /// The response with the given status that reports `message`.
    pub fn error(status: u16, message: &str) -> (r: Response)
        ensures
            r@ == error_reply(status, message@),
    {
        let quoted = quote(message);
        let text = write_error_object(quoted.as_str());
        Response::json(status, text.as_str())
    }

    /// The media type of every body.
    pub fn content_type(&self) -> (r: &'static str)
        ensures
            r@ == "application/json"@,
    {
        "application/json"
    }
}

} // verus!
