//! Creating a post.

use crate::domain::models::post::{PostError, PostModel};
use crate::domain::models::post_id::PostId;
use crate::handlers::posts::{adapt_post_to_post_response, CreatePostRequest, PostResponse};
use crate::infra::db::errors::DbError;
use crate::infra::db::table::{distinct_ids, holds, PostTable};
use crate::infra::repositories::post_repository::{insert, NewPostDb, NewPostView};
use vstd::prelude::*;

verus! {

/// The post that a request asks for, before it has an identifier: the title
/// and the body of the request, not published.
pub open spec fn requested(new_post: crate::handlers::posts::CreatePostView) -> NewPostView {
    NewPostView { title: new_post.title, body: new_post.body, published: false }
}

/// The row to insert for a request. Whatever the client sent, the post starts
/// out unpublished.
pub fn new_post_db(new_post: CreatePostRequest) -> (row: NewPostDb)
    ensures
        row@ == requested(new_post@),
        !row.published,
{
    NewPostDb { title: new_post.title, body: new_post.body, published: false }
}

/// Shapes the answer once the repository has inserted the post: the post as
/// stored, or the repository's error passed on.
pub fn create_post_response(inserted: Result<PostModel, DbError>) -> (result: Result<
    PostResponse,
    PostError,
>)
    ensures
        match inserted {
            Ok(post) => result matches Ok(response) && response@ == post@,
            Err(db_error) => result matches Err(error) && error == PostError::InfraError(db_error),
        },
{
    match inserted {
        Ok(created_post) => Ok(adapt_post_to_post_response(created_post)),
        Err(db_error) => Err(PostError::InfraError(db_error)),
    }
}

/// Creates a post from a request and answers with the post as stored. The
/// post is never published at creation. The identifier is the one the store
/// assigns; one that is already taken fails the request and changes nothing.
pub fn create_post(table: &mut PostTable, id: PostId, new_post: CreatePostRequest) -> (result:
    Result<PostResponse, PostError>)
    ensures
        match result {
            Ok(response) => {
                &&& !holds(old(table)@, id)
                &&& response@ == requested(new_post@).stored_as(id)
                &&& !response.published
                &&& final(table)@ == old(table)@.push(response@)
            },
            Err(error) => {
                &&& holds(old(table)@, id)
                &&& error == PostError::InfraError(DbError::InternalServerError)
                &&& final(table)@ == old(table)@
            },
        },
        distinct_ids(final(table)@),
{
    let new_post_db = new_post_db(new_post);
    let created_post = insert(table, id, new_post_db);
    create_post_response(created_post)
}

} // verus!
