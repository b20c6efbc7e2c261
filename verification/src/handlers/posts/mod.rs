//! The operations on posts and the shapes they take on the wire.

use crate::domain::models::post::{PostError, PostModel, PostView};
use crate::domain::models::post_id::PostId;
use crate::http::OK;
use vstd::prelude::*;

pub use create_post::create_post;
pub use get_post::get_post;
pub use list_posts::list_posts;

pub mod create_post;
pub mod get_post;
pub mod list_posts;

verus! {

/// What a client sends to create a post. There is no way to ask for a
/// published post: the flag is not part of the request.
#[derive(Debug, Clone, PartialEq, Eq)]
pub struct CreatePostRequest {
    pub title: String,
    pub body: String,
}

/// The mathematical content of a request to create a post.
pub struct CreatePostView {
    pub title: Seq<char>,
    pub body: Seq<char>,
}

impl View for CreatePostRequest {
    type V = CreatePostView;

    open spec fn view(&self) -> CreatePostView {
        CreatePostView { title: self.title@, body: self.body@ }
    }
}

/// A post as it is sent to a client.
#[derive(Debug, Clone, PartialEq, Eq)]
pub struct PostResponse {
    pub id: PostId,
    pub title: String,
    pub body: String,
    pub published: bool,
}

impl View for PostResponse {
    type V = PostView;

    open spec fn view(&self) -> PostView {
        PostView { id: self.id, title: self.title@, body: self.body@, published: self.published }
    }
}

impl DeepView for PostResponse {
    type V = PostView;

    open spec fn deep_view(&self) -> PostView {
        self@
    }
}

/// A listing as it is sent to a client.
#[derive(Debug, Clone, PartialEq, Eq)]
pub struct ListPostsResponse {
    pub posts: Vec<PostResponse>,
}

impl View for ListPostsResponse {
    type V = Seq<PostView>;

    open spec fn view(&self) -> Seq<PostView> {
        self.posts.deep_view()
    }
}

/// A post as it is sent to a client: the same post, field for field.
pub fn adapt_post_to_post_response(post: PostModel) -> (response: PostResponse)
    ensures
        response@ == post@,
{
    PostResponse { id: post.id, title: post.title, body: post.body, published: post.published }
}

/// The status a handler's result is answered with: 200 for an answer, the
/// error's own status otherwise.
pub open spec fn status_of<T>(result: Result<T, PostError>) -> u16 {
    match result {
        Ok(_) => OK,
        Err(error) => error.status_code(),
    }
}

/// Computes the status a handler's result is answered with.
pub fn status<T>(result: &Result<T, PostError>) -> (code: u16)
    ensures
        code == status_of(*result),
{
    match result {
        Ok(_) => OK,
        Err(PostError::NotFound(_)) => crate::http::NOT_FOUND,
        Err(_) => crate::http::INTERNAL_SERVER_ERROR,
    }
}

} // verus!
