use posts_api::errors::{internal_error, AppError};
use posts_api::http::{Content, BAD_REQUEST, INTERNAL_SERVER_ERROR};
use posts_api::infra::db::errors::{db_internal_error, diesel_error, DbError, QueryFailure};
use posts_api::utils::custom_extractors::json_extractor::body_parsing_error;

#[test]
fn an_internal_error_carries_the_text_of_its_cause() {
    let cause = "x".parse::<u16>().unwrap_err();
    let expected = cause.to_string();
    assert_eq!(internal_error(cause), AppError::InternalServerError(expected));
    assert_eq!(
        internal_error("pool timed out"),
        AppError::InternalServerError(String::from("pool timed out"))
    );
}

#[test]
fn an_internal_error_is_answered_with_500() {
    let response = AppError::InternalServerError(String::from("boom")).into_response();
    assert_eq!(response.status, 500);
    assert_eq!(response.status, INTERNAL_SERVER_ERROR);
    assert_eq!(
        response.content,
        Content::Json(String::from("{\"message\":\"Internal Server Error: boom\"}"))
    );
}

#[test]
fn a_body_parsing_error_is_answered_with_400() {
    let response = AppError::BodyParsingError(String::from("missing field `body`")).into_response();
    assert_eq!(response.status, 400);
    assert_eq!(response.status, BAD_REQUEST);
    assert_eq!(
        response.content,
        Content::Json(String::from("{\"message\":\"Bad request error: missing field `body`\"}"))
    );
}

#[test]
fn the_message_is_encoded_as_a_json_string() {
    let response = AppError::BodyParsingError(String::from("expected `\"` at line 1\n")).into_response();
    let text = match response.content {
        Content::Json(text) => text,
        other => panic!("not a JSON body: {:?}", other),
    };
    assert_eq!(text, "{\"message\":\"Bad request error: expected `\\\"` at line 1\\n\"}");
    let document: serde_json::Value = serde_json::from_str(&text).unwrap();
    assert_eq!(
        document.get("message").and_then(|m| m.as_str()),
        Some("Bad request error: expected `\"` at line 1\n")
    );
    assert_eq!(document.as_object().map(|o| o.len()), Some(1));
}

#[test]
fn a_rejection_becomes_a_body_parsing_error() {
    assert_eq!(
        body_parsing_error(String::from("Failed to parse the request body as JSON")),
        AppError::BodyParsingError(String::from("Failed to parse the request body as JSON"))
    );
}

#[test]
fn whatever_fails_outside_a_statement_is_an_internal_error() {
    assert_eq!(db_internal_error("no connection"), DbError::InternalServerError);
    assert_eq!(db_internal_error(17), DbError::InternalServerError);
    assert_eq!(db_internal_error(()), DbError::InternalServerError);
}

#[test]
fn only_a_missing_row_is_not_found() {
    assert_eq!(diesel_error(QueryFailure::NoRow), DbError::NotFound);
    assert_eq!(diesel_error(QueryFailure::Other), DbError::InternalServerError);
}

#[test]
fn store_errors_have_a_text() {
    assert_eq!(DbError::NotFound.to_string(), "Not found");
    assert_eq!(DbError::InternalServerError.to_string(), "Internal server error");
}
