//! Failures that are not tied to a particular resource.

use crate::http::{json_object_text, json_response, Content, Response, BAD_REQUEST, INTERNAL_SERVER_ERROR};
use vstd::prelude::*;
use vstd::string::{to_string_from_display_ensures, StringExecFns};

verus! {

/// A failure of the application as a whole.
#[derive(Debug, Clone, PartialEq, Eq)]
pub enum AppError {
    /// Something broke on the server's side; the text says what.
    InternalServerError(String),
    /// The request body could not be decoded; the text is the decoder's.
    BodyParsingError(String),
}

/// Wraps any displayable error as an internal server error that carries the
/// error's own text.
pub fn internal_error<E: std::fmt::Display>(err: E) -> (error: AppError)
    ensures
        error matches AppError::InternalServerError(detail) && to_string_from_display_ensures::<E>(
            &err,
            detail,
        ),
{
    AppError::InternalServerError(err.to_string())
}

impl AppError {
    /// The HTTP status this error is answered with.
    pub open spec fn status_code(self) -> u16 {
        match self {
            AppError::InternalServerError(_) => INTERNAL_SERVER_ERROR,
            AppError::BodyParsingError(_) => BAD_REQUEST,
        }
    }

    /// The message put in the response body.
    pub open spec fn message(self) -> Seq<char> {
        match self {
            AppError::InternalServerError(detail) => "Internal Server Error: "@ + detail@,
            AppError::BodyParsingError(detail) => "Bad request error: "@ + detail@,
        }
    }

    /// The members of the response document: a single `message`.
    pub open spec fn members(self) -> Seq<(Seq<char>, Seq<char>)> {
        seq![("message"@, self.message())]
    }

    /// Answers the error: its status and a JSON object with the message.
    pub fn into_response(self) -> (response: Response)
        ensures
            response.status == self.status_code(),
            response.content matches Content::Json(text) && text@ == json_object_text(
                self.members(),
            ),
    {
        let (status, err_msg) = match self {
            AppError::InternalServerError(message) => (
                INTERNAL_SERVER_ERROR,
                String::from_str("Internal Server Error: ").concat(message.as_str()),
            ),
            AppError::BodyParsingError(message) => (
                BAD_REQUEST,
                String::from_str("Bad request error: ").concat(message.as_str()),
            ),
        };
        let mut members: Vec<(String, String)> = Vec::new();
        members.push((String::from_str("message"), err_msg));
        assert(members.deep_view() =~= self.members());
        json_response(status, members)
    }
}

} // verus!
