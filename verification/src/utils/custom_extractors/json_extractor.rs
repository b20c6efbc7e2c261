//! A request body decoded from JSON, or the rejection that says why it could
//! not be.

use crate::errors::AppError;
use vstd::prelude::*;

verus! {

/// A value decoded from the JSON body of a request.
#[derive(Debug, Clone, PartialEq, Eq)]
pub struct JsonExtractor<T>(pub T);

/// The error for a body that could not be decoded: a bad request that
/// carries the decoder's words.
pub fn body_parsing_error(rejection: String) -> (error: AppError)
    ensures
        error matches AppError::BodyParsingError(detail) && detail == rejection,
{
    AppError::BodyParsingError(rejection)
}

impl<T> JsonExtractor<T> {
    /// Accepts what the decoder made of the body: the value, or the rejection
    /// turned into a bad request.
    pub fn extract(decoded: Result<T, String>) -> (result: Result<JsonExtractor<T>, AppError>)
        ensures
            match decoded {
                Ok(value) => result matches Ok(extracted) && extracted.0 == value,
                Err(rejection) => result matches Err(AppError::BodyParsingError(detail)) && detail
                    == rejection,
            },
    {
        match decoded {
            Ok(value) => Ok(JsonExtractor(value)),
            Err(rejection) => Err(body_parsing_error(rejection)),
        }
    }
}

} // verus!
