//! The plain shape of what the service sends back: a status and a body.

use vstd::prelude::*;

verus! {

/// 200 OK.
pub const OK: u16 = 200;

/// 400 Bad Request.
pub const BAD_REQUEST: u16 = 400;

/// 404 Not Found.
pub const NOT_FOUND: u16 = 404;

/// 405 Method Not Allowed.
pub const METHOD_NOT_ALLOWED: u16 = 405;

/// 500 Internal Server Error.
pub const INTERNAL_SERVER_ERROR: u16 = 500;

/// The body of a response, tagged with its media type.
#[derive(Debug, Clone, PartialEq, Eq)]
pub enum Content {
    /// No body at all.
    Empty,
    /// `text/plain; charset=utf-8`.
    Text(String),
    /// `application/json`; the string is the encoded document.
    Json(String),
}

/// A response, ready to be written to the wire.
#[derive(Debug, Clone, PartialEq, Eq)]
pub struct Response {
    pub status: u16,
    pub content: Content,
}

/// The compact JSON encoding of the object that a run of (name, value) pairs
/// makes, all values being strings: the members come out sorted by name, and
/// of two pairs with the same name the later one counts.
pub uninterp spec fn json_object_text(members: Seq<(Seq<char>, Seq<char>)>) -> Seq<char>;

/// Encodes an object of string members with `serde_json`: the pairs are
/// collected into a `serde_json::Map` as `Value::String`s, which keeps its
/// members sorted by name, and the resulting `Value::Object` is written with
/// `Value`'s `Display` (compact form). The contract only names the text; it
/// is a function of the pairs alone.
#[verifier::external_body]
pub(crate) fn encode_json_object(members: Vec<(String, String)>) -> (text: String)
    ensures
        text@ == json_object_text(members.deep_view()),
{
    let object: serde_json::Map<String, serde_json::Value> = members
        .into_iter()
        .map(|(name, value)| (name, serde_json::Value::String(value)))
        .collect();
    serde_json::Value::Object(object).to_string()
}

/// A JSON response whose document is an object of string members.
pub fn json_response(status: u16, members: Vec<(String, String)>) -> (response: Response)
    ensures
        response.status == status,
        response.content matches Content::Json(text)
            && text@ == json_object_text(members.deep_view()),
{
    Response { status, content: Content::Json(encode_json_object(members)) }
}

} // verus!
