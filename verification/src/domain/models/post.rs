//! The post entity and the failures of the operations on it.

use crate::domain::models::post_id::PostId;
use crate::http::{json_object_text, json_response, Content, Response, INTERNAL_SERVER_ERROR, NOT_FOUND};
use crate::infra::db::errors::DbError;
use vstd::prelude::*;
use vstd::string::StringExecFns;

verus! {

/// A post as the domain sees it.
#[derive(Debug, Clone, PartialEq, Eq)]
pub struct PostModel {
    pub id: PostId,
    pub title: String,
    pub body: String,
    pub published: bool,
}

/// The mathematical content of a post: what every layer's record of it
/// (stored row, domain entity, response) stands for.
pub struct PostView {
    pub id: PostId,
    pub title: Seq<char>,
    pub body: Seq<char>,
    pub published: bool,
}

impl View for PostModel {
    type V = PostView;

    open spec fn view(&self) -> PostView {
        PostView { id: self.id, title: self.title@, body: self.body@, published: self.published }
    }
}

/// Why an operation on posts failed.
#[derive(Debug, Clone, Copy, PartialEq, Eq, Structural)]
pub enum PostError {
    /// The store failed and the cause is not passed on.
    InternalServerError,
    /// No post has this identifier.
    NotFound(PostId),
    /// The store failed; the cause is passed on.
    InfraError(DbError),
}

/// Reads the clock with `chrono::Utc::now` and writes the instant as
/// `DateTime::to_rfc3339_opts(SecondsFormat::AutoSi, true)` does, which is how
/// `chrono` serialises a `DateTime<Utc>`. Nothing is promised of the text: it
/// differs from call to call. `Utc::now` fails on a machine whose clock stands
/// before 1970.
#[verifier::external_body]
fn now_rfc3339() -> (text: String) {
    chrono::Utc::now().to_rfc3339_opts(chrono::SecondsFormat::AutoSi, true)
}

impl PostError {
    /// The HTTP status this error is answered with.
    pub open spec fn status_code(self) -> u16 {
        match self {
            PostError::NotFound(_) => NOT_FOUND,
            PostError::InfraError(_) => INTERNAL_SERVER_ERROR,
            PostError::InternalServerError => INTERNAL_SERVER_ERROR,
        }
    }

    /// The message put in the response body.
    pub open spec fn message(self) -> Seq<char> {
        match self {
            PostError::NotFound(id) => "Post with id "@ + id.text() + " has not been found"@,
            PostError::InfraError(db_error) => "Internal server error: "@ + db_error.text(),
            PostError::InternalServerError => "Internal server error"@,
        }
    }

    /// The members of the response document for an error that happened at the
    /// given instant.
    pub open spec fn members(self, happened_at: Seq<char>) -> Seq<(Seq<char>, Seq<char>)> {
        seq![("resource"@, "Post"@), ("message"@, self.message()), ("happened_at"@, happened_at)]
    }

    /// Whether `response` answers this error as having happened at the given
    /// instant: the error's status, and a JSON object with `resource`,
    /// `message` and `happened_at`.
    pub open spec fn answered_by(self, response: Response, happened_at: Seq<char>) -> bool {
        &&& response.status == self.status_code()
        &&& response.content matches Content::Json(text)
        &&& text@ == json_object_text(self.members(happened_at))
    }

    /// Puts the message together.
    pub fn message_text(&self) -> (text: String)
        ensures
            text@ == self.message(),
    {
        match self {
            PostError::NotFound(id) => {
                let id_text = id.to_string();
                String::from_str("Post with id ").concat(id_text.as_str()).concat(
                    " has not been found",
                )
            },
            PostError::InfraError(db_error) => {
                let detail = db_error.to_string();
                String::from_str("Internal server error: ").concat(detail.as_str())
            },
            PostError::InternalServerError => String::from_str("Internal server error"),
        }
    }

    /// Answers the error as having happened at the given instant.
    pub fn response_at(self, happened_at: String) -> (response: Response)
        ensures
            self.answered_by(response, happened_at@),
    {
        let status = match self {
            PostError::NotFound(_) => NOT_FOUND,
            PostError::InfraError(_) => INTERNAL_SERVER_ERROR,
            PostError::InternalServerError => INTERNAL_SERVER_ERROR,
        };
        let err_msg = self.message_text();
        let mut members: Vec<(String, String)> = Vec::new();
        members.push((String::from_str("resource"), String::from_str("Post")));
        members.push((String::from_str("message"), err_msg));
        members.push((String::from_str("happened_at"), happened_at));
        assert(members.deep_view() =~= self.members(happened_at@));
        json_response(status, members)
    }

    /// Answers the error as having happened now. Status and message are those
    /// of the error; the instant is whatever the clock says.
    pub fn into_response(self) -> (response: Response)
        ensures
            exists|happened_at: Seq<char>| self.answered_by(response, happened_at),
    {
        let happened_at = now_rfc3339();
        self.response_at(happened_at)
    }
}

} // verus!
