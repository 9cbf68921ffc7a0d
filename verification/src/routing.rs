//! Which handler answers an HTTP request.

use vstd::prelude::*;
use vstd::string::StrSliceExecFns;

verus! {

/// The request methods the server tells apart.
#[derive(Debug, Clone, Copy, PartialEq, Eq)]
pub enum Method {
    Get,
    Post,
    Other,
}

/// The handlers of the server.
#[derive(Debug, Clone, Copy, PartialEq, Eq)]
pub enum Route {
    /// The JSON API, answered by the query router.
    Api,
    /// A page of the single-page application: the index document.
    AppPage,
    /// A file of the static frontend directory.
    StaticFile,
    /// Nothing: answered with 404.
    NotFound,
}

/// `prefix` is a prefix of `s`.
pub open spec fn has_prefix(s: Seq<char>, prefix: Seq<char>) -> bool {
    prefix.len() <= s.len() && s.subrange(0, prefix.len() as int) == prefix
}

/// The handler of a request: `POST /api` goes to the API, a `GET` of a path
/// under `/app` to the index document, any other `GET` to the static files,
/// and everything else to 404.
pub open spec fn route_of(method: Method, path: Seq<char>) -> Route {
    match method {
        Method::Post => if path == "/api"@ { Route::Api } else { Route::NotFound },
        Method::Get => if has_prefix(path, "/app"@) { Route::AppPage } else { Route::StaticFile },
        Method::Other => Route::NotFound,
    }
}

/// Whether `s` starts with `prefix`, character by character.
pub fn starts_with(s: &str, prefix: &str) -> (r: bool)
    ensures
        r == has_prefix(s@, prefix@),
{
    let n = prefix.unicode_len();
    let m = s.unicode_len();
    if n > m {
        return false;
    }
    let mut i: usize = 0;
    while i < n
        invariant
            n == prefix@.len(),
            m == s@.len(),
            n <= m,
            i <= n,
            forall|j: int| 0 <= j < i ==> s@[j] == prefix@[j],
        decreases n - i,
    {
        if s.get_char(i) != prefix.get_char(i) {
            assert(s@.subrange(0, n as int)[i as int] != prefix@[i as int]);
            return false;
        }
        i = i + 1;
    }
    assert(s@.subrange(0, n as int) =~= prefix@);
    true
}

/// Whether `s` and `t` hold the same characters.
pub fn same_text(s: &str, t: &str) -> (r: bool)
    ensures
        r == (s@ == t@),
{
    if s.unicode_len() != t.unicode_len() {
        return false;
    }
    let r = starts_with(s, t);
    proof {
        assert(s@.subrange(0, s@.len() as int) =~= s@);
    }
    r
}

/// Chooses the handler of a request from its method and path.
pub fn route(method: Method, path: &str) -> (r: Route)
    ensures
        r == route_of(method, path@),
        method == Method::Get ==> (r == Route::AppPage <==> ("/app"@.len() <= path@.len() && path@.subrange(
            0,
            "/app"@.len() as int,
        ) == "/app"@)),
        method == Method::Get ==> (r == Route::AppPage || r == Route::StaticFile),
        method == Method::Post ==> (r == Route::Api <==> path@ == "/api"@),
        method == Method::Post ==> (r == Route::Api || r == Route::NotFound),
        method == Method::Other ==> r == Route::NotFound,
{
    match method {
        Method::Post => if same_text(path, "/api") { Route::Api } else { Route::NotFound },
        Method::Get => if starts_with(path, "/app") { Route::AppPage } else { Route::StaticFile },
        Method::Other => Route::NotFound,
    }
}

/// A GET is answered with the index document exactly when its path starts
/// with `/app`, and from the static files otherwise; a POST reaches the API
/// exactly when its path is `/api`, and is 404 otherwise; any other method
/// is 404.
pub proof fn law_routes(path: Seq<char>)
    ensures
        route_of(Method::Get, path) == Route::AppPage <==> ("/app"@.len() <= path.len() && path.subrange(
            0,
            "/app"@.len() as int,
        ) == "/app"@),
        route_of(Method::Get, path) != Route::AppPage ==> route_of(Method::Get, path) == Route::StaticFile,
        route_of(Method::Post, path) == Route::Api <==> path == "/api"@,
        route_of(Method::Post, path) != Route::Api ==> route_of(Method::Post, path) == Route::NotFound,
        route_of(Method::Other, path) == Route::NotFound,
{
}

} // verus!
