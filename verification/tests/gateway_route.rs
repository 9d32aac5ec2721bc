use std::collections::HashMap;
use xunlei::gateway::route::{fixed_response, home_redirect, login_response, route, Route, LOGIN_BODY};
use xunlei::standard::SYNOPKG_WEB_UI_HOME;

#[test]
fn login_is_answered_with_the_empty_token() {
    assert_eq!(route("GET", "/webman/login.cgi"), Route::Login);
    let response = login_response();
    assert_eq!(response.status_code, 200);
    assert_eq!(
        response.headers,
        vec![(
            "Content-Type".to_string(),
            "application/json; charset=utf-8".to_string()
        )]
    );
    assert_eq!(response.body, "{\"SynoToken\":\"\"}");
}

#[test]
fn login_body_is_the_json_of_the_empty_token() {
    let mut token = HashMap::new();
    token.insert("SynoToken", "");
    assert_eq!(serde_json::to_string(&token).unwrap(), LOGIN_BODY);
}

#[test]
fn login_answer_has_the_status_and_type_of_a_json_response() {
    let ours = login_response();
    let theirs = rouille::Response::json(&String::new());
    assert_eq!(ours.status_code, theirs.status_code);
    assert_eq!(ours.headers.len(), theirs.headers.len());
    assert_eq!(ours.headers[0].0, theirs.headers[0].0);
    assert_eq!(ours.headers[0].1, theirs.headers[0].1);
}

#[test]
fn home_paths_redirect_to_the_web_ui() {
    assert_eq!(route("GET", "/"), Route::Home);
    assert_eq!(route("GET", "/webman/"), Route::Home);
    assert_eq!(route("GET", "/webman/3rdparty/pan-xunlei-com"), Route::Home);
    let response = home_redirect();
    assert_eq!(response.status_code, 307);
    assert_eq!(
        response.headers,
        vec![(
            "Location".to_string(),
            "/webman/3rdparty/pan-xunlei-com/index.cgi".to_string()
        )]
    );
    assert_eq!(response.body, "");
}

#[test]
fn home_redirect_is_the_temporary_redirect_of_the_server() {
    let ours = home_redirect();
    let theirs = rouille::Response::redirect_307(SYNOPKG_WEB_UI_HOME);
    assert_eq!(ours.status_code, theirs.status_code);
    assert_eq!(ours.headers.len(), theirs.headers.len());
    assert_eq!(ours.headers[0].0, theirs.headers[0].0);
    assert_eq!(ours.headers[0].1, theirs.headers[0].1);
}

#[test]
fn query_string_does_not_change_the_route() {
    assert_eq!(route("GET", "/webman/login.cgi?x=1"), Route::Login);
    assert_eq!(route("GET", "/?"), Route::Home);
    assert_eq!(route("GET", "/webman/?a=b?c"), Route::Home);
}

#[test]
fn other_methods_and_paths_are_forwarded() {
    assert_eq!(route("POST", "/webman/login.cgi"), Route::Forward);
    assert_eq!(route("get", "/"), Route::Forward);
    assert_eq!(route("HEAD", "/"), Route::Forward);
    assert_eq!(route("GET", "/webman"), Route::Forward);
    assert_eq!(route("GET", "/webman/login.cgi/"), Route::Forward);
    assert_eq!(route("GET", "/webman/3rdparty/pan-xunlei-com/"), Route::Forward);
    assert_eq!(
        route("GET", "/webman/3rdparty/pan-xunlei-com/index.cgi"),
        Route::Forward
    );
    assert_eq!(route("GET", ""), Route::Forward);
    assert_eq!(route("GET", "?/"), Route::Forward);
    assert_eq!(route("", "/"), Route::Forward);
}

#[test]
fn fixed_response_follows_the_route() {
    assert!(fixed_response(Route::Forward).is_none());
    let login = fixed_response(Route::Login).unwrap();
    assert_eq!(login.status_code, 200);
    assert_eq!(login.body, LOGIN_BODY);
    let home = fixed_response(Route::Home).unwrap();
    assert_eq!(home.status_code, 307);
    assert_eq!(home.headers[0].1, SYNOPKG_WEB_UI_HOME);
}
