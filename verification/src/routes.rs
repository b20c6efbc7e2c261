//! The static route table: which operation a method and a path stand for.

use crate::http::{Content, Response, METHOD_NOT_ALLOWED, NOT_FOUND};
use crate::utils::text::{chars_of, starts_with, text_from};
use vstd::prelude::*;
use vstd::string::StringExecFns;

verus! {

/// The method of a request, as far as the route table tells methods apart.
#[derive(Debug, Clone, Copy, PartialEq, Eq, Structural)]
pub enum Method {
    Get,
    Head,
    Post,
    /// Any other method.
    Other,
}

impl Method {
    /// Whether the method reads a resource: `GET`, and `HEAD`, which is
    /// routed like `GET`.
    pub open spec fn reads(self) -> bool {
        self == Method::Get || self == Method::Head
    }
}

/// What a request is routed to.
#[derive(Debug, Clone, PartialEq, Eq)]
pub enum Route {
    /// The liveness text.
    Root,
    /// Create a post.
    CreatePost,
    /// List posts.
    ListPosts,
    /// Fetch the post named by the path segment.
    GetPost(String),
    /// The path is routed, but not for this method.
    MethodNotAllowed,
    /// The path is not routed at all.
    NotFound,
}

/// The mathematical content of a route.
pub enum RouteView {
    Root,
    CreatePost,
    ListPosts,
    GetPost(Seq<char>),
    MethodNotAllowed,
    NotFound,
}

impl View for Route {
    type V = RouteView;

    open spec fn view(&self) -> RouteView {
        match self {
            Route::Root => RouteView::Root,
            Route::CreatePost => RouteView::CreatePost,
            Route::ListPosts => RouteView::ListPosts,
            Route::GetPost(segment) => RouteView::GetPost(segment@),
            Route::MethodNotAllowed => RouteView::MethodNotAllowed,
            Route::NotFound => RouteView::NotFound,
        }
    }
}

/// Whether a text is one path segment: not empty and without a slash.
pub open spec fn is_segment(text: Seq<char>) -> bool {
    text.len() > 0 && forall|i: int| 0 <= i < text.len() ==> #[trigger] text[i] != '/'
}

/// The routes below the posts prefix, for what is left of the path after it:
/// nothing left is the collection, a slash and one segment is one post.
pub open spec fn posts_route(method: Method, rest: Seq<char>) -> RouteView {
    if rest.len() == 0 {
        match method {
            Method::Get => RouteView::ListPosts,
            Method::Head => RouteView::ListPosts,
            Method::Post => RouteView::CreatePost,
            Method::Other => RouteView::MethodNotAllowed,
        }
    } else if rest[0] == '/' && is_segment(rest.skip(1)) {
        if method.reads() {
            RouteView::GetPost(rest.skip(1))
        } else {
            RouteView::MethodNotAllowed
        }
    } else {
        RouteView::NotFound
    }
}

/// The route table: the service root, the posts below `/v1/posts`, and
/// nothing else.
pub open spec fn route(method: Method, path: Seq<char>) -> RouteView {
    if path == "/"@ {
        if method.reads() {
            RouteView::Root
        } else {
            RouteView::MethodNotAllowed
        }
    } else if "/v1/posts"@.is_prefix_of(path) {
        posts_route(method, path.skip(9))
    } else {
        RouteView::NotFound
    }
}

/// Routes what is left of a path below the posts prefix.
pub fn posts_routes(method: Method, rest: &Vec<char>) -> (found: Route)
    ensures
        found@ == posts_route(method, rest@),
{
    if rest.len() == 0 {
        return match method {
            Method::Get => Route::ListPosts,
            Method::Head => Route::ListPosts,
            Method::Post => Route::CreatePost,
            Method::Other => Route::MethodNotAllowed,
        };
    }
    if rest[0] != '/' || rest.len() == 1 {
        return Route::NotFound;
    }
    let mut i: usize = 1;
    while i < rest.len()
        invariant
            1 <= i <= rest.len(),
            forall|k: int| 1 <= k < i ==> rest@[k] != '/',
        decreases rest.len() - i,
    {
        if rest[i] == '/' {
            assert(rest@.skip(1)[i - 1] == '/');
            return Route::NotFound;
        }
        i += 1;
    }
    match method {
        Method::Get => Route::GetPost(text_from(rest, 1)),
        Method::Head => Route::GetPost(text_from(rest, 1)),
        _ => Route::MethodNotAllowed,
    }
}

/// Routes a request by its method and path.
pub fn app_router(method: Method, path: &str) -> (found: Route)
    ensures
        found@ == route(method, path@),
{
    let chars = chars_of(path);
    let prefix = chars_of("/v1/posts");
    proof {
        reveal_strlit("/");
        reveal_strlit("/v1/posts");
    }
    if chars.len() == 1 && chars[0] == '/' {
        assert(chars@ =~= "/"@);
        return match method {
            Method::Get => Route::Root,
            Method::Head => Route::Root,
            _ => Route::MethodNotAllowed,
        };
    }
    if starts_with(&chars, &prefix) {
        let rest = text_from(&chars, 9);
        let rest_chars = chars_of(rest.as_str());
        posts_routes(method, &rest_chars)
    } else {
        Route::NotFound
    }
}

/// The liveness text.
pub open spec fn root_text() -> Seq<char> {
    "Server is running!"@
}

/// The text that answers a path that is not routed.
pub open spec fn not_found_text() -> Seq<char> {
    "The requested resource was not found"@
}

/// Answers the service root.
pub fn root() -> (text: &'static str)
    ensures
        text@ == root_text(),
{
    "Server is running!"
}

/// Answers a path that is not routed: 404 and a plain text.
pub fn handler_404() -> (response: Response)
    ensures
        response.status == NOT_FOUND,
        response.content matches Content::Text(text) && text@ == not_found_text(),
{
    Response {
        status: NOT_FOUND,
        content: Content::Text(String::from_str("The requested resource was not found")),
    }
}

/// Answers a path that is routed, but not for the method of the request: 405
/// and no body.
pub fn method_not_allowed() -> (response: Response)
    ensures
        response.status == METHOD_NOT_ALLOWED,
        response.content is Empty,
{
    Response { status: METHOD_NOT_ALLOWED, content: Content::Empty }
}

} // verus!
