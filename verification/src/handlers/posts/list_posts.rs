//! Listing posts.

use crate::domain::models::post::{PostError, PostModel};
use crate::handlers::posts::{adapt_post_to_post_response, ListPostsResponse, PostResponse};
use crate::infra::db::errors::DbError;
use crate::infra::db::table::{distinct_ids, PostTable};
use crate::infra::repositories::post_repository::{get_all, matching, PostsFilter};
use vstd::prelude::*;

verus! {

/// Posts as they are sent to a client: the same posts in the same order.
pub fn adapt_posts_to_list_posts_response(posts: Vec<PostModel>) -> (response: ListPostsResponse)
    ensures
        response@ == posts.deep_view(),
{
    let mut posts_response: Vec<PostResponse> = Vec::new();
    let ghost all = posts.deep_view();
    for post in it: posts
        invariant
            it.seq().len() == all.len(),
            forall|i: int| 0 <= i < all.len() ==> (#[trigger] it.seq()[i])@ == all[i],
            posts_response.len() == it.index(),
            forall|i: int| 0 <= i < posts_response.len() ==> (#[trigger] posts_response[i])@ == all[i],
    {
        posts_response.push(adapt_post_to_post_response(post));
    }
    ListPostsResponse { posts: posts_response }
}

/// Shapes the answer once the repository has listed the posts: the listing,
/// or an internal error whatever the repository's error was.
pub fn list_posts_response(listed: Result<Vec<PostModel>, DbError>) -> (result: Result<
    ListPostsResponse,
    PostError,
>)
    ensures
        match listed {
            Ok(posts) => result matches Ok(response) && response@ == posts.deep_view(),
            Err(_) => result matches Err(error) && error == PostError::InternalServerError,
        },
{
    match listed {
        Ok(posts) => Ok(adapt_posts_to_list_posts_response(posts)),
        Err(_) => Err(PostError::InternalServerError),
    }
}

/// Lists the posts that pass the filter, each once, in the order of the
/// table. The listing may be empty; the request does not fail.
pub fn list_posts(table: &PostTable, params: PostsFilter) -> (result: Result<
    ListPostsResponse,
    PostError,
>)
    ensures
        result matches Ok(response) && response@ == matching(table@, params@),
        distinct_ids(table@),
{
    let posts = get_all(table, params);
    list_posts_response(posts)
}

} // verus!
