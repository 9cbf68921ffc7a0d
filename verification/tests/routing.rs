use carbonbond::routing::{route, same_text, starts_with, Method, Route};

#[test]
fn post_api_goes_to_the_api() {
    assert_eq!(route(Method::Post, "/api"), Route::Api);
}

#[test]
fn other_posts_are_not_found() {
    assert_eq!(route(Method::Post, "/api/"), Route::NotFound);
    assert_eq!(route(Method::Post, "/app"), Route::NotFound);
    assert_eq!(route(Method::Other, "/api"), Route::NotFound);
}

#[test]
fn get_under_app_is_the_index() {
    assert_eq!(route(Method::Get, "/app"), Route::AppPage);
    assert_eq!(route(Method::Get, "/app/board/7"), Route::AppPage);
    assert_eq!(route(Method::Get, "/application"), Route::AppPage);
}

#[test]
fn other_gets_are_static_files() {
    assert_eq!(route(Method::Get, "/"), Route::StaticFile);
    assert_eq!(route(Method::Get, "/ap"), Route::StaticFile);
    assert_eq!(route(Method::Get, "/api"), Route::StaticFile);
}

#[test]
fn text_comparisons() {
    assert!(starts_with("/app/x", "/app"));
    assert!(!starts_with("/ap", "/app"));
    assert!(starts_with("看板", "看"));
    assert!(same_text("/api", "/api"));
    assert!(!same_text("/api", "/apj"));
}
