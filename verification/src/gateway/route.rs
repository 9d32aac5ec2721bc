//! Routing of inbound requests, and the responses that need no CGI program.

use crate::standard::SYNOPKG_WEB_UI_HOME;
use crate::text::{chars_of, find_char, is_text, lemma_position_unique, position};
use vstd::prelude::*;
use vstd::string::StringExecFns;

verus! {

/// What the gateway does with a request.
#[derive(Clone, Copy, Debug, PartialEq, Eq, Structural)]
pub enum Route {
    /// Answer with the fixed login token.
    Login,
    /// Redirect to the web UI's home.
    Home,
    /// Hand the request to the CGI program.
    Forward,
}

/// The part of a raw URL before its first `?`.
pub open spec fn path_of(raw_url: Seq<char>) -> Seq<char> {
    raw_url.take(position(raw_url, '?') as int)
}

/// The part of a raw URL behind its first `?`, empty where it has none.
pub open spec fn query_of(raw_url: Seq<char>) -> Seq<char> {
    if position(raw_url, '?') < raw_url.len() {
        raw_url.skip(position(raw_url, '?') as int + 1)
    } else {
        Seq::empty()
    }
}

pub open spec fn is_home_path(path: Seq<char>) -> bool {
    path == "/"@ || path == "/webman/"@ || path == "/webman/3rdparty/pan-xunlei-com"@
}

/// The route of a request: an exact match of method and path, else `Forward`.
pub open spec fn route_of(method: Seq<char>, raw_url: Seq<char>) -> Route {
    if method != "GET"@ {
        Route::Forward
    } else if path_of(raw_url) == "/webman/login.cgi"@ {
        Route::Login
    } else if is_home_path(path_of(raw_url)) {
        Route::Home
    } else {
        Route::Forward
    }
}

/// A raw URL without `?` is its own path.
pub proof fn lemma_path_without_query(raw_url: Seq<char>)
    requires
        forall|i: int| 0 <= i < raw_url.len() ==> raw_url[i] != '?',
    ensures
        path_of(raw_url) == raw_url,
        query_of(raw_url).len() == 0,
{
    lemma_position_unique(raw_url, '?', raw_url.len() as int);
    assert(raw_url.take(raw_url.len() as int) == raw_url);
}

/// What follows the first `?` of a raw URL does not change the route.
pub proof fn lemma_query_ignored(method: Seq<char>, path: Seq<char>, query: Seq<char>)
    requires
        forall|i: int| 0 <= i < path.len() ==> path[i] != '?',
    ensures
        route_of(method, path + seq!['?'] + query) == route_of(method, path),
{
    let raw_url = path + seq!['?'] + query;
    assert forall|j: int| 0 <= j < path.len() implies raw_url[j] != '?' by {
        assert(raw_url[j] == path[j]);
    }
    lemma_position_unique(raw_url, '?', path.len() as int);
    assert(raw_url.take(path.len() as int) == path);
    lemma_path_without_query(path);
}

/// A `GET` of the login path has the route `Login`, with or without a query
/// string: the method and the path decide, and nothing else of the request.
pub proof fn lemma_login_route(query: Seq<char>)
    ensures
        route_of("GET"@, "/webman/login.cgi"@) == Route::Login,
        route_of("GET"@, "/webman/login.cgi"@ + seq!['?'] + query) == Route::Login,
{
    reveal_strlit("/webman/login.cgi");
    let path = "/webman/login.cgi"@;
    assert(path.len() == 17);
    assert forall|i: int| 0 <= i < path.len() implies path[i] != '?' by {}
    lemma_path_without_query(path);
    lemma_query_ignored("GET"@, path, query);
}

/// A `GET` of `/`, of `/webman/` or of the package's path below it has the
/// route `Home`, with or without a query string.
pub proof fn lemma_home_routes(query: Seq<char>)
    ensures
        route_of("GET"@, "/"@) == Route::Home,
        route_of("GET"@, "/webman/"@) == Route::Home,
        route_of("GET"@, "/webman/3rdparty/pan-xunlei-com"@) == Route::Home,
        route_of("GET"@, "/"@ + seq!['?'] + query) == Route::Home,
        route_of("GET"@, "/webman/"@ + seq!['?'] + query) == Route::Home,
        route_of("GET"@, "/webman/3rdparty/pan-xunlei-com"@ + seq!['?'] + query) == Route::Home,
{
    reveal_strlit("/");
    reveal_strlit("/webman/");
    reveal_strlit("/webman/3rdparty/pan-xunlei-com");
    reveal_strlit("/webman/login.cgi");
    assert("/"@.len() == 1);
    assert("/webman/"@.len() == 8);
    assert("/webman/3rdparty/pan-xunlei-com"@.len() == 31);
    assert("/webman/login.cgi"@.len() == 17);
    assert forall|i: int| 0 <= i < "/"@.len() implies "/"@[i] != '?' by {}
    assert forall|i: int| 0 <= i < "/webman/"@.len() implies "/webman/"@[i] != '?' by {}
    assert forall|i: int|
        0 <= i < "/webman/3rdparty/pan-xunlei-com"@.len() implies "/webman/3rdparty/pan-xunlei-com"@[i]
        != '?' by {}
    lemma_path_without_query("/"@);
    lemma_path_without_query("/webman/"@);
    lemma_path_without_query("/webman/3rdparty/pan-xunlei-com"@);
    lemma_query_ignored("GET"@, "/"@, query);
    lemma_query_ignored("GET"@, "/webman/"@, query);
    lemma_query_ignored("GET"@, "/webman/3rdparty/pan-xunlei-com"@, query);
}

/// Routes a request by its method and its raw URL, query string included.
pub fn route(method: &str, raw_url: &str) -> (r: Route)
    ensures
        r == route_of(method@, raw_url@),
{
    let m = chars_of(method);
    if !is_text(m.as_slice(), "GET") {
        return Route::Forward;
    }
    let url = chars_of(raw_url);
    let end = find_char(url.as_slice(), '?');
    let path = vstd::slice::slice_subrange(url.as_slice(), 0, end);
    assert(path@ == path_of(raw_url@));
    if is_text(path, "/webman/login.cgi") {
        Route::Login
    } else if is_text(path, "/") || is_text(path, "/webman/") || is_text(
        path,
        "/webman/3rdparty/pan-xunlei-com",
    ) {
        Route::Home
    } else {
        Route::Forward
    }
}

/// A response that the gateway writes by itself.
pub struct FixedResponse {
    pub status_code: u16,
    pub headers: Vec<(String, String)>,
    pub body: String,
}

/// The body of the login answer.
pub const LOGIN_BODY: &'static str = "{\"SynoToken\":\"\"}";

/// The answer to a login request: the empty token as JSON, status 200.
pub open spec fn is_login_response(response: FixedResponse) -> bool {
    &&& response.status_code == 200
    &&& response.headers@.len() == 1
    &&& response.headers@[0].0@ == "Content-Type"@
    &&& response.headers@[0].1@ == "application/json; charset=utf-8"@
    &&& response.body@ == LOGIN_BODY@
}

/// The temporary redirect to the web UI's home: status 307, the home as
/// location, no body.
pub open spec fn is_home_redirect(response: FixedResponse) -> bool {
    &&& response.status_code == 307
    &&& response.headers@.len() == 1
    &&& response.headers@[0].0@ == "Location"@
    &&& response.headers@[0].1@ == SYNOPKG_WEB_UI_HOME@
    &&& response.body@.len() == 0
}

/// The answer to a login request.
pub fn login_response() -> (response: FixedResponse)
    ensures
        is_login_response(response),
{
    let mut headers: Vec<(String, String)> = Vec::new();
    headers.push(
        (String::from_str("Content-Type"), String::from_str("application/json; charset=utf-8")),
    );
    FixedResponse { status_code: 200, headers, body: String::from_str(LOGIN_BODY) }
}

/// The redirect to the web UI's home.
pub fn home_redirect() -> (response: FixedResponse)
    ensures
        is_home_redirect(response),
{
    let mut headers: Vec<(String, String)> = Vec::new();
    headers.push((String::from_str("Location"), String::from_str(SYNOPKG_WEB_UI_HOME)));
    FixedResponse { status_code: 307, headers, body: String::new() }
}

/// The gateway's own answer for a route, `None` where the request goes to
/// the CGI program.
pub fn fixed_response(r: Route) -> (response: Option<FixedResponse>)
    ensures
        match r {
            Route::Login => response is Some && is_login_response(response->0),
            Route::Home => response is Some && is_home_redirect(response->0),
            Route::Forward => response is None,
        },
{
    match r {
        Route::Login => Some(login_response()),
        Route::Home => Some(home_redirect()),
        Route::Forward => None,
    }
}

} // verus!
