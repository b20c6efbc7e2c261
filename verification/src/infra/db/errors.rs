//! Failures of the store, reduced to the two buckets callers can act on.

use vstd::prelude::*;
use vstd::string::StringExecFns;

verus! {

/// What went wrong at the store, as far as a caller can tell.
#[derive(Debug, Clone, Copy, PartialEq, Eq, Structural)]
pub enum DbError {
    /// Connectivity, constraint violations, timeouts, malformed statements.
    InternalServerError,
    /// A point lookup matched no row.
    NotFound,
}

/// How a single statement failed at the database driver.
#[derive(Debug, Clone, Copy, PartialEq, Eq, Structural)]
pub enum QueryFailure {
    /// The statement ran and returned no row where one was expected.
    NoRow,
    /// Any other driver failure.
    Other,
}

/// The bucket a driver failure falls into.
pub open spec fn classify(failure: QueryFailure) -> DbError {
    match failure {
        QueryFailure::NoRow => DbError::NotFound,
        QueryFailure::Other => DbError::InternalServerError,
    }
}

/// Maps any failure outside the statement itself (no connection, a worker that
/// died) to `InternalServerError`, whatever it was.
pub fn db_internal_error<E>(_err: E) -> (error: DbError)
    ensures
        error == DbError::InternalServerError,
{
    DbError::InternalServerError
}

/// Maps a failed statement to its bucket: only a missing row is `NotFound`.
pub fn diesel_error(err: QueryFailure) -> (error: DbError)
    ensures
        error == classify(err),
{
    match err {
        QueryFailure::NoRow => DbError::NotFound,
        QueryFailure::Other => DbError::InternalServerError,
    }
}

impl DbError {
    /// The text shown for this error.
    pub open spec fn text(self) -> Seq<char> {
        match self {
            DbError::NotFound => "Not found"@,
            DbError::InternalServerError => "Internal server error"@,
        }
    }

    /// Renders the error as text.
    pub fn to_string(&self) -> (text: String)
        ensures
            text@ == self.text(),
    {
        match self {
            DbError::NotFound => String::from_str("Not found"),
            DbError::InternalServerError => String::from_str("Internal server error"),
        }
    }
}

} // verus!
