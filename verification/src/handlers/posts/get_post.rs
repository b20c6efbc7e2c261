//! Fetching one post.

use crate::domain::models::post::{PostError, PostModel};
use crate::domain::models::post_id::PostId;
use crate::handlers::posts::{adapt_post_to_post_response, PostResponse};
use crate::infra::db::errors::DbError;
use crate::infra::db::table::{distinct_ids, find, holds, PostTable};
use crate::infra::repositories::post_repository::get;
use vstd::prelude::*;

verus! {

/// What a failed lookup of `post_id` is reported as: a missing row names the
/// identifier that was asked for, anything else is an internal error.
pub open spec fn lookup_error(post_id: PostId, db_error: DbError) -> PostError {
    match db_error {
        DbError::InternalServerError => PostError::InternalServerError,
        DbError::NotFound => PostError::NotFound(post_id),
    }
}

/// Shapes the answer once the repository has looked the post up: the post,
/// or the lookup's error.
pub fn get_post_response(post_id: PostId, fetched: Result<PostModel, DbError>) -> (result: Result<
    PostResponse,
    PostError,
>)
    ensures
        match fetched {
            Ok(post) => result matches Ok(response) && response@ == post@,
            Err(db_error) => result matches Err(error) && error == lookup_error(post_id, db_error),
        },
{
    match fetched {
        Ok(post) => Ok(adapt_post_to_post_response(post)),
        Err(DbError::InternalServerError) => Err(PostError::InternalServerError),
        Err(DbError::NotFound) => Err(PostError::NotFound(post_id)),
    }
}

/// Fetches the post with the identifier. The request fails exactly when no
/// post has the identifier, and then with `NotFound` naming it.
pub fn get_post(table: &PostTable, post_id: PostId) -> (result: Result<PostResponse, PostError>)
    ensures
        match result {
            Ok(response) => find(table@, post_id) == Some(response@),
            Err(error) => error == PostError::NotFound(post_id) && !holds(table@, post_id),
        },
        distinct_ids(table@),
{
    let post = get(table, post_id);
    get_post_response(post_id, post)
}

} // verus!
