use htmx_echo::response::RequestError;
use htmx_echo::route::{route, Method, Route};

#[test]
fn routes_the_three_exact_paths() {
    assert_eq!(route(Method::Get, "/"), Route::Index);
    assert_eq!(route(Method::Post, "/json"), Route::JsonEcho);
    assert_eq!(route(Method::Post, "/html"), Route::HtmlEcho);
}

#[test]
fn other_methods_on_exact_paths_are_not_allowed() {
    let not_allowed = Route::Rejected(RequestError::MethodNotAllowed);
    assert_eq!(route(Method::Post, "/"), not_allowed);
    assert_eq!(route(Method::Other, "/"), not_allowed);
    assert_eq!(route(Method::Get, "/json"), not_allowed);
    assert_eq!(route(Method::Other, "/json"), not_allowed);
    assert_eq!(route(Method::Get, "/html"), not_allowed);
    assert_eq!(route(Method::Other, "/html"), not_allowed);
}

#[test]
fn unknown_paths_are_not_found() {
    let not_found = Route::Rejected(RequestError::RouteNotFound);
    for path in ["", "/nope", "/json/", "/html/x", "/JSON", "//", "/static", "/staticx/a.css", "json", "/index.html"] {
        assert_eq!(route(Method::Get, path), not_found, "{}", path);
        assert_eq!(route(Method::Post, path), not_found, "{}", path);
        assert_eq!(route(Method::Other, path), not_found, "{}", path);
    }
}

#[test]
fn static_paths_lose_their_prefix() {
    assert_eq!(
        route(Method::Get, "/static/css/index.css"),
        Route::Static("css/index.css".to_string())
    );
    assert_eq!(
        route(Method::Get, "/static/js/htmx.v1.9.8.min.js"),
        Route::Static("js/htmx.v1.9.8.min.js".to_string())
    );
    assert_eq!(route(Method::Get, "/static/"), Route::Static(String::new()));
    assert_eq!(route(Method::Get, "/static/日本.png"), Route::Static("日本.png".to_string()));
}

#[test]
fn static_paths_take_any_method() {
    let file = Route::Static("a.css".to_string());
    assert_eq!(route(Method::Get, "/static/a.css"), file);
    assert_eq!(route(Method::Post, "/static/a.css"), file);
    assert_eq!(route(Method::Other, "/static/a.css"), file);
}

#[test]
fn static_paths_with_a_parent_segment_are_not_found() {
    let not_found = Route::Rejected(RequestError::StaticNotFound);
    for path in [
        "/static/..",
        "/static/../",
        "/static/../secret",
        "/static/css/../../secret",
        "/static/css/..",
        "/static/a/../b",
        "/static//..",
    ] {
        assert_eq!(route(Method::Get, path), not_found, "{}", path);
    }
}

#[test]
fn dots_that_are_no_parent_segment_are_served() {
    for rel in ["..a", "a..", "a/..b/c", "...", "./a", "a/.../b", ".", "a..b"] {
        let path = format!("/static/{}", rel);
        assert_eq!(route(Method::Get, &path), Route::Static(rel.to_string()), "{}", rel);
    }
}

#[test]
fn static_paths_with_an_encoded_parent_segment_are_not_found() {
    let not_found = Route::Rejected(RequestError::StaticNotFound);
    for path in [
        "/static/%2e%2e/Cargo.toml",
        "/static/%2E%2e/Cargo.toml",
        "/static/..%2fCargo.toml",
        "/static/.%2e/Cargo.toml",
        "/static/css/%2e%2e%2f%2e%2e%2fCargo.toml",
    ] {
        assert_eq!(route(Method::Get, path), not_found, "{}", path);
        assert_eq!(route(Method::Post, path), not_found, "{}", path);
    }
}

#[test]
fn static_paths_keep_their_encoding() {
    assert_eq!(
        route(Method::Get, "/static/my%20file%2ecss"),
        Route::Static("my%20file%2ecss".to_string())
    );
    assert_eq!(
        route(Method::Get, "/static/%252e%252e/a"),
        Route::Static("%252e%252e/a".to_string())
    );
}
