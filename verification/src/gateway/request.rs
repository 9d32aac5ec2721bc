//! The environment of the CGI program for one forwarded request.

use crate::decimal::{decimal_string, decimal_text};
use crate::env::EnvSet;
use crate::gateway::route::query_of;
use crate::text::{chars_of, find_char, is_text, string_of, string_of_range};
use vstd::prelude::*;

verus! {

/// What the gateway reads of an inbound request.
pub struct CgiRequest {
    /// The request method, as sent.
    pub method: String,
    /// The requested URL as sent: not decoded, query string included.
    pub raw_url: String,
    /// The requested path: decoded, without the query string.
    pub url: String,
    /// The caller's address.
    pub remote_addr: String,
    /// The request headers in the order received, names as sent.
    pub headers: Vec<(String, String)>,
}

/// The upper-case form of a text, as `str::to_uppercase` gives it.
pub uninterp spec fn uppercase_of(s: Seq<char>) -> Seq<char>;

/// `str::to_uppercase`: the upper-case equivalent of `s` as a new string.
/// The result depends on `s` alone; it is named, not described.
#[verifier::external_body]
fn to_uppercase(s: &str) -> (upper: String)
    ensures
        upper@ == uppercase_of(s@),
{
    s.to_uppercase()
}

/// The text with `_` in place of each `-`.
pub open spec fn dashes_to_underscores(s: Seq<char>) -> Seq<char> {
    Seq::new(
        s.len(),
        |i: int|
            if s[i] == '-' {
                '_'
            } else {
                s[i]
            },
    )
}

/// The variable that carries a request header: `HTTP_`, then the header's
/// name in upper case with `_` for `-`.
pub open spec fn header_variable(name: Seq<char>) -> Seq<char> {
    "HTTP_"@ + dashes_to_underscores(uppercase_of(name))
}

/// Whether a header is handed on to the CGI program: any but `Proxy`, in
/// whatever case, with a value that is not empty.
pub open spec fn header_forwarded(name: Seq<char>, value: Seq<char>) -> bool {
    uppercase_of(name) != "PROXY"@ && value.len() > 0
}

/// The environment with one request header laid over it.
pub open spec fn with_header(
    env: Map<Seq<char>, Seq<char>>,
    name: Seq<char>,
    value: Seq<char>,
) -> Map<Seq<char>, Seq<char>> {
    if header_forwarded(name, value) {
        env.insert(header_variable(name), value)
    } else {
        env
    }
}

/// The environment with the request headers laid over it, first to last.
pub open spec fn with_headers(
    env: Map<Seq<char>, Seq<char>>,
    headers: Seq<(String, String)>,
) -> Map<Seq<char>, Seq<char>>
    decreases headers.len(),
{
    if headers.len() == 0 {
        env
    } else {
        with_header(with_headers(env, headers.drop_last()), headers.last().0@, headers.last().1@)
    }
}

/// The value of the first header whose name is exactly `name`.
pub open spec fn header_value(headers: Seq<(String, String)>, name: Seq<char>) -> Option<
    Seq<char>,
>
    decreases headers.len(),
{
    if headers.len() == 0 {
        None
    } else if headers[0].0@ == name {
        Some(headers[0].1@)
    } else {
        header_value(headers.drop_first(), name)
    }
}

/// The environment with `variable` set from the header `name`, where the
/// request has that header with a value that is not empty.
pub open spec fn with_content_header(
    env: Map<Seq<char>, Seq<char>>,
    headers: Seq<(String, String)>,
    name: Seq<char>,
    variable: Seq<char>,
) -> Map<Seq<char>, Seq<char>> {
    match header_value(headers, name) {
        Some(value) => if value.len() > 0 {
            env.insert(variable, value)
        } else {
            env
        },
        None => env,
    }
}

/// The environment with the variables of the request line and of the two
/// ends of the connection laid over it.
pub open spec fn with_request_line(
    env: Map<Seq<char>, Seq<char>>,
    method: Seq<char>,
    raw_url: Seq<char>,
    url: Seq<char>,
    remote_addr: Seq<char>,
    port: u16,
) -> Map<Seq<char>, Seq<char>> {
    env.insert("SERVER_SOFTWARE"@, "rust"@).insert("SERVER_PROTOCOL"@, "HTTP/1.1"@).insert(
        "HTTP_HOST"@,
        remote_addr,
    ).insert("GATEWAY_INTERFACE"@, "CGI/1.1"@).insert("REQUEST_METHOD"@, method).insert(
        "QUERY_STRING"@,
        query_of(raw_url),
    ).insert("REQUEST_URI"@, raw_url).insert("PATH_INFO"@, url).insert(
        "SCRIPT_NAME"@,
        "."@,
    ).insert("SCRIPT_FILENAME"@, url).insert("SERVER_PORT"@, decimal_text(port as nat)).insert(
        "REMOTE_ADDR"@,
        remote_addr,
    ).insert("SERVER_NAME"@, remote_addr)
}

/// The environment with the length and type of the request body laid over
/// it, each from the header in its usual spelling and then from the one in
/// lower case, so that the second wins where both are sent.
pub open spec fn with_content_headers(
    env: Map<Seq<char>, Seq<char>>,
    headers: Seq<(String, String)>,
) -> Map<Seq<char>, Seq<char>> {
    with_content_header(
        with_content_header(
            with_content_header(
                with_content_header(env, headers, "Content-Type"@, "CONTENT_TYPE"@),
                headers,
                "content-type"@,
                "CONTENT_TYPE"@,
            ),
            headers,
            "Content-Length"@,
            "CONTENT_LENGTH"@,
        ),
        headers,
        "content-length"@,
        "CONTENT_LENGTH"@,
    )
}

/// The environment of the CGI program for a request: the base environment,
/// then the request line, then the headers, then the body's type and length.
pub open spec fn cgi_environment_of(
    base: Map<Seq<char>, Seq<char>>,
    request: CgiRequest,
    port: u16,
) -> Map<Seq<char>, Seq<char>> {
    with_content_headers(
        with_headers(
            with_request_line(
                base,
                request.method@,
                request.raw_url@,
                request.url@,
                request.remote_addr@,
                port,
            ),
            request.headers@,
        ),
        request.headers@,
    )
}

/// Only a header named `Proxy`, in whatever case, would be carried by the
/// variable `HTTP_PROXY`.
pub proof fn lemma_proxy_variable(name: Seq<char>)
    requires
        header_variable(name) == "HTTP_PROXY"@,
    ensures
        uppercase_of(name) == "PROXY"@,
{
    reveal_strlit("HTTP_");
    reveal_strlit("HTTP_PROXY");
    reveal_strlit("PROXY");
    let upper = uppercase_of(name);
    let mapped = dashes_to_underscores(upper);
    assert(("HTTP_"@ + mapped).len() == 5 + mapped.len());
    assert forall|i: int| 0 <= i < 5 implies upper[i] == "PROXY"@[i] by {
        assert(("HTTP_"@ + mapped)[5 + i] == mapped[i]);
        assert("HTTP_PROXY"@[5 + i] == "PROXY"@[i]);
    }
    assert(upper =~= "PROXY"@);
}

/// The request headers never set `HTTP_PROXY`: it is in the environment only
/// where it was there before, with the value it had.
pub proof fn lemma_headers_keep_proxy(
    env: Map<Seq<char>, Seq<char>>,
    headers: Seq<(String, String)>,
)
    ensures
        with_headers(env, headers).dom().contains("HTTP_PROXY"@) == env.dom().contains(
            "HTTP_PROXY"@,
        ),
        env.dom().contains("HTTP_PROXY"@) ==> with_headers(env, headers)["HTTP_PROXY"@]
            == env["HTTP_PROXY"@],
    decreases headers.len(),
{
    if headers.len() > 0 {
        lemma_headers_keep_proxy(env, headers.drop_last());
        let name = headers.last().0@;
        if header_variable(name) == "HTTP_PROXY"@ {
            lemma_proxy_variable(name);
        }
    }
}

/// No request makes the gateway set `HTTP_PROXY` for the CGI program: the
/// variable is in the program's environment only where the base environment
/// has it, and then with its value from there.
pub proof fn lemma_no_proxy_from_request(
    base: Map<Seq<char>, Seq<char>>,
    request: CgiRequest,
    port: u16,
)
    ensures
        cgi_environment_of(base, request, port).dom().contains("HTTP_PROXY"@)
            == base.dom().contains("HTTP_PROXY"@),
        base.dom().contains("HTTP_PROXY"@) ==> cgi_environment_of(
            base,
            request,
            port,
        )["HTTP_PROXY"@] == base["HTTP_PROXY"@],
{
    reveal_strlit("HTTP_PROXY");
    reveal_strlit("SERVER_SOFTWARE");
    reveal_strlit("SERVER_PROTOCOL");
    reveal_strlit("HTTP_HOST");
    reveal_strlit("GATEWAY_INTERFACE");
    reveal_strlit("REQUEST_METHOD");
    reveal_strlit("QUERY_STRING");
    reveal_strlit("REQUEST_URI");
    reveal_strlit("PATH_INFO");
    reveal_strlit("SCRIPT_NAME");
    reveal_strlit("SCRIPT_FILENAME");
    reveal_strlit("SERVER_PORT");
    reveal_strlit("REMOTE_ADDR");
    reveal_strlit("SERVER_NAME");
    reveal_strlit("CONTENT_TYPE");
    reveal_strlit("CONTENT_LENGTH");
    let lined = with_request_line(
        base,
        request.method@,
        request.raw_url@,
        request.url@,
        request.remote_addr@,
        port,
    );
    assert("HTTP_PROXY"@.len() == 10);
    assert("SERVER_SOFTWARE"@.len() == 15);
    assert("SERVER_PROTOCOL"@.len() == 15);
    assert("HTTP_HOST"@.len() == 9);
    assert("GATEWAY_INTERFACE"@.len() == 17);
    assert("REQUEST_METHOD"@.len() == 14);
    assert("QUERY_STRING"@.len() == 12);
    assert("REQUEST_URI"@.len() == 11);
    assert("PATH_INFO"@.len() == 9);
    assert("SCRIPT_NAME"@.len() == 11);
    assert("SCRIPT_FILENAME"@.len() == 15);
    assert("SERVER_PORT"@.len() == 11);
    assert("REMOTE_ADDR"@.len() == 11);
    assert("SERVER_NAME"@.len() == 11);
    assert("CONTENT_TYPE"@.len() == 12);
    assert("CONTENT_LENGTH"@.len() == 14);
    assert(lined.dom().contains("HTTP_PROXY"@) == base.dom().contains("HTTP_PROXY"@));
    assert(base.dom().contains("HTTP_PROXY"@) ==> lined["HTTP_PROXY"@] == base["HTTP_PROXY"@]);
    lemma_headers_keep_proxy(lined, request.headers@);
}

/// Whether a variable's name starts with `HTTP_`.
pub open spec fn is_header_variable(name: Seq<char>) -> bool {
    name.len() >= 5 && name.take(5) == "HTTP_"@
}

/// Request headers set variables that start with `HTTP_` and no others:
/// every other variable is in the environment only where it was there
/// before, with the value it had.
pub proof fn lemma_headers_set_header_variables(
    env: Map<Seq<char>, Seq<char>>,
    headers: Seq<(String, String)>,
    name: Seq<char>,
)
    requires
        !is_header_variable(name),
    ensures
        with_headers(env, headers).dom().contains(name) == env.dom().contains(name),
        env.dom().contains(name) ==> with_headers(env, headers)[name] == env[name],
    decreases headers.len(),
{
    if headers.len() > 0 {
        lemma_headers_set_header_variables(env, headers.drop_last(), name);
        reveal_strlit("HTTP_");
        let variable = header_variable(headers.last().0@);
        assert(variable.take(5) =~= "HTTP_"@);
    }
}

/// Whatever headers the caller sends, the variables of the request line say
/// what the gateway saw: the method, the URL and its parts, the caller's
/// address and the port are those of the request itself.
pub proof fn lemma_request_line_kept(
    base: Map<Seq<char>, Seq<char>>,
    request: CgiRequest,
    port: u16,
)
    ensures
        cgi_environment_of(base, request, port).dom().contains("SERVER_SOFTWARE"@),
        cgi_environment_of(base, request, port)["SERVER_SOFTWARE"@] == "rust"@,
        cgi_environment_of(base, request, port).dom().contains("SERVER_PROTOCOL"@),
        cgi_environment_of(base, request, port)["SERVER_PROTOCOL"@] == "HTTP/1.1"@,
        cgi_environment_of(base, request, port).dom().contains("GATEWAY_INTERFACE"@),
        cgi_environment_of(base, request, port)["GATEWAY_INTERFACE"@] == "CGI/1.1"@,
        cgi_environment_of(base, request, port).dom().contains("REQUEST_METHOD"@),
        cgi_environment_of(base, request, port)["REQUEST_METHOD"@] == request.method@,
        cgi_environment_of(base, request, port).dom().contains("QUERY_STRING"@),
        cgi_environment_of(base, request, port)["QUERY_STRING"@] == query_of(request.raw_url@),
        cgi_environment_of(base, request, port).dom().contains("REQUEST_URI"@),
        cgi_environment_of(base, request, port)["REQUEST_URI"@] == request.raw_url@,
        cgi_environment_of(base, request, port).dom().contains("PATH_INFO"@),
        cgi_environment_of(base, request, port)["PATH_INFO"@] == request.url@,
        cgi_environment_of(base, request, port).dom().contains("SCRIPT_NAME"@),
        cgi_environment_of(base, request, port)["SCRIPT_NAME"@] == "."@,
        cgi_environment_of(base, request, port).dom().contains("SCRIPT_FILENAME"@),
        cgi_environment_of(base, request, port)["SCRIPT_FILENAME"@] == request.url@,
        cgi_environment_of(base, request, port).dom().contains("SERVER_PORT"@),
        cgi_environment_of(base, request, port)["SERVER_PORT"@] == decimal_text(port as nat),
        cgi_environment_of(base, request, port).dom().contains("REMOTE_ADDR"@),
        cgi_environment_of(base, request, port)["REMOTE_ADDR"@] == request.remote_addr@,
        cgi_environment_of(base, request, port).dom().contains("SERVER_NAME"@),
        cgi_environment_of(base, request, port)["SERVER_NAME"@] == request.remote_addr@,
{
    reveal_strlit("HTTP_");
    reveal_strlit("SERVER_SOFTWARE");
    reveal_strlit("SERVER_PROTOCOL");
    reveal_strlit("HTTP_HOST");
    reveal_strlit("GATEWAY_INTERFACE");
    reveal_strlit("REQUEST_METHOD");
    reveal_strlit("QUERY_STRING");
    reveal_strlit("REQUEST_URI");
    reveal_strlit("PATH_INFO");
    reveal_strlit("SCRIPT_NAME");
    reveal_strlit("SCRIPT_FILENAME");
    reveal_strlit("SERVER_PORT");
    reveal_strlit("REMOTE_ADDR");
    reveal_strlit("SERVER_NAME");
    reveal_strlit("CONTENT_TYPE");
    reveal_strlit("CONTENT_LENGTH");
    assert("HTTP_"@[0] == 'H');
    assert("SERVER_SOFTWARE"@.len() == 15 && "SERVER_SOFTWARE"@[0] == 'S' && "SERVER_SOFTWARE"@[1]
        == 'E' && "SERVER_SOFTWARE"@[7] == 'S');
    assert("SERVER_PROTOCOL"@.len() == 15 && "SERVER_PROTOCOL"@[0] == 'S' && "SERVER_PROTOCOL"@[1]
        == 'E' && "SERVER_PROTOCOL"@[7] == 'P');
    assert("SCRIPT_FILENAME"@.len() == 15 && "SCRIPT_FILENAME"@[0] == 'S' && "SCRIPT_FILENAME"@[1]
        == 'C');
    assert("HTTP_HOST"@.len() == 9 && "HTTP_HOST"@[0] == 'H');
    assert("PATH_INFO"@.len() == 9 && "PATH_INFO"@[0] == 'P');
    assert("GATEWAY_INTERFACE"@.len() == 17 && "GATEWAY_INTERFACE"@[0] == 'G');
    assert("REQUEST_METHOD"@.len() == 14 && "REQUEST_METHOD"@[0] == 'R');
    assert("QUERY_STRING"@.len() == 12 && "QUERY_STRING"@[0] == 'Q');
    assert("REQUEST_URI"@.len() == 11 && "REQUEST_URI"@[0] == 'R' && "REQUEST_URI"@[2] == 'Q');
    assert("SCRIPT_NAME"@.len() == 11 && "SCRIPT_NAME"@[0] == 'S' && "SCRIPT_NAME"@[1] == 'C');
    assert("SERVER_PORT"@.len() == 11 && "SERVER_PORT"@[0] == 'S' && "SERVER_PORT"@[1] == 'E'
        && "SERVER_PORT"@[7] == 'P');
    assert("REMOTE_ADDR"@.len() == 11 && "REMOTE_ADDR"@[0] == 'R' && "REMOTE_ADDR"@[2] == 'M');
    assert("SERVER_NAME"@.len() == 11 && "SERVER_NAME"@[0] == 'S' && "SERVER_NAME"@[1] == 'E'
        && "SERVER_NAME"@[7] == 'N');
    assert("CONTENT_TYPE"@.len() == 12 && "CONTENT_TYPE"@[0] == 'C');
    assert("CONTENT_LENGTH"@.len() == 14 && "CONTENT_LENGTH"@[0] == 'C');
    let lined = with_request_line(
        base,
        request.method@,
        request.raw_url@,
        request.url@,
        request.remote_addr@,
        port,
    );
    let headers = request.headers@;
    assert("SERVER_SOFTWARE"@.take(5)[0] == 'S');
    assert("SERVER_PROTOCOL"@.take(5)[0] == 'S');
    assert("GATEWAY_INTERFACE"@.take(5)[0] == 'G');
    assert("REQUEST_METHOD"@.take(5)[0] == 'R');
    assert("QUERY_STRING"@.take(5)[0] == 'Q');
    assert("REQUEST_URI"@.take(5)[0] == 'R');
    assert("PATH_INFO"@.take(5)[0] == 'P');
    assert("SCRIPT_NAME"@.take(5)[0] == 'S');
    assert("SCRIPT_FILENAME"@.take(5)[0] == 'S');
    assert("SERVER_PORT"@.take(5)[0] == 'S');
    assert("REMOTE_ADDR"@.take(5)[0] == 'R');
    assert("SERVER_NAME"@.take(5)[0] == 'S');
    lemma_headers_set_header_variables(lined, headers, "SERVER_SOFTWARE"@);
    lemma_headers_set_header_variables(lined, headers, "SERVER_PROTOCOL"@);
    lemma_headers_set_header_variables(lined, headers, "GATEWAY_INTERFACE"@);
    lemma_headers_set_header_variables(lined, headers, "REQUEST_METHOD"@);
    lemma_headers_set_header_variables(lined, headers, "QUERY_STRING"@);
    lemma_headers_set_header_variables(lined, headers, "REQUEST_URI"@);
    lemma_headers_set_header_variables(lined, headers, "PATH_INFO"@);
    lemma_headers_set_header_variables(lined, headers, "SCRIPT_NAME"@);
    lemma_headers_set_header_variables(lined, headers, "SCRIPT_FILENAME"@);
    lemma_headers_set_header_variables(lined, headers, "SERVER_PORT"@);
    lemma_headers_set_header_variables(lined, headers, "REMOTE_ADDR"@);
    lemma_headers_set_header_variables(lined, headers, "SERVER_NAME"@);
}

/// Where several headers share a variable, the last one sent wins: once all
/// headers are laid on, the variable of the last forwarded header holds that
/// header's value.
pub proof fn lemma_last_header_wins(env: Map<Seq<char>, Seq<char>>, headers: Seq<(String, String)>)
    requires
        headers.len() > 0,
        header_forwarded(headers.last().0@, headers.last().1@),
    ensures
        with_headers(env, headers).dom().contains(header_variable(headers.last().0@)),
        with_headers(env, headers)[header_variable(headers.last().0@)] == headers.last().1@,
{
}

/// Every header that is forwarded has its variable in the environment once
/// all headers are laid on.
pub proof fn lemma_forwarded_header_present(
    env: Map<Seq<char>, Seq<char>>,
    headers: Seq<(String, String)>,
    i: int,
)
    requires
        0 <= i < headers.len(),
        header_forwarded(headers[i].0@, headers[i].1@),
    ensures
        with_headers(env, headers).dom().contains(header_variable(headers[i].0@)),
    decreases headers.len(),
{
    if i < headers.len() - 1 {
        lemma_forwarded_header_present(env, headers.drop_last(), i);
    }
}

/// The type of the request body is handed on as `CONTENT_TYPE`: where the
/// request has a `Content-Type` header with a value and none in lower case,
/// the variable holds that value.
pub proof fn lemma_content_type(base: Map<Seq<char>, Seq<char>>, request: CgiRequest, port: u16)
    requires
        header_value(request.headers@, "Content-Type"@) is Some,
        header_value(request.headers@, "Content-Type"@)->0.len() > 0,
        header_value(request.headers@, "content-type"@) is None,
    ensures
        cgi_environment_of(base, request, port).dom().contains("CONTENT_TYPE"@),
        cgi_environment_of(base, request, port)["CONTENT_TYPE"@] == header_value(
            request.headers@,
            "Content-Type"@,
        )->0,
{
    reveal_strlit("CONTENT_TYPE");
    reveal_strlit("CONTENT_LENGTH");
    assert("CONTENT_TYPE"@.len() == 12);
    assert("CONTENT_LENGTH"@.len() == 14);
}

/// The query string of a raw URL.
pub fn query_string(raw_url: &str) -> (query: String)
    ensures
        query@ == query_of(raw_url@),
{
    let url = chars_of(raw_url);
    let at = find_char(url.as_slice(), '?');
    if at < url.len() {
        string_of_range(url.as_slice(), at + 1, url.len())
    } else {
        String::new()
    }
}

/// The name of the variable for a header whose upper-case name is `upper`.
fn variable_name(upper: &[char]) -> (name: String)
    ensures
        name@ == "HTTP_"@ + dashes_to_underscores(upper@),
{
    let mut out = chars_of("HTTP_");
    let mut i: usize = 0;
    while i < upper.len()
        invariant
            i <= upper@.len(),
            out@ == "HTTP_"@ + dashes_to_underscores(upper@).take(i as int),
        decreases upper@.len() - i,
    {
        let c = upper[i];
        if c == '-' {
            out.push('_');
        } else {
            out.push(c);
        }
        assert(dashes_to_underscores(upper@).take(i + 1) == dashes_to_underscores(upper@).take(
            i as int,
        ).push(dashes_to_underscores(upper@)[i as int]));
        i = i + 1;
    }
    assert(dashes_to_underscores(upper@).take(i as int) == dashes_to_underscores(upper@));
    string_of(out.as_slice())
}

/// Lays one request header over the environment.
fn put_header(envs: &mut EnvSet, name: &str, value: &str)
    ensures
        final(envs)@ == with_header(old(envs)@, name@, value@),
{
    let upper = to_uppercase(name);
    let upper_chars = chars_of(upper.as_str());
    if is_text(upper_chars.as_slice(), "PROXY") {
        return ;
    }
    if !value.is_empty() {
        envs.insert(variable_name(upper_chars.as_slice()), value.to_owned());
    }
}

/// Looks up the first header whose name is exactly `name`.
pub fn find_header<'a>(headers: &'a Vec<(String, String)>, name: &str) -> (value: Option<
    &'a String,
>)
    ensures
        match value {
            Some(v) => header_value(headers@, name@) == Some(v@),
            None => header_value(headers@, name@) is None,
        },
{
    let wanted = name.to_owned();
    let mut i: usize = 0;
    assert(headers@.skip(0) == headers@);
    while i < headers.len()
        invariant
            i <= headers@.len(),
            wanted@ == name@,
            header_value(headers@, name@) == header_value(headers@.skip(i as int), name@),
        decreases headers@.len() - i,
    {
        assert(headers@.skip(i as int)[0] == headers@[i as int]);
        assert(headers@.skip(i as int).drop_first() == headers@.skip(i + 1));
        if headers[i].0 == wanted {
            return Some(&headers[i].1);
        }
        i = i + 1;
    }
    assert(headers@.skip(i as int).len() == 0);
    None
}

/// Sets `variable` from the header `name` where that header has a value.
fn put_content_header(
    envs: &mut EnvSet,
    headers: &Vec<(String, String)>,
    name: &str,
    variable: &str,
)
    ensures
        final(envs)@ == with_content_header(old(envs)@, headers@, name@, variable@),
{
    match find_header(headers, name) {
        Some(value) => {
            if !value.as_str().is_empty() {
                envs.insert(variable.to_owned(), value.clone());
            }
        },
        None => {},
    }
}

/// Builds the environment of the CGI program for `request`, received on
/// `port`, over the base environment `base`.
pub fn cgi_environment(base: &EnvSet, request: &CgiRequest, port: u16) -> (envs: EnvSet)
    ensures
        envs@ == cgi_environment_of(base@, *request, port),
{
    let mut envs = base.clone();
    envs.set("SERVER_SOFTWARE", "rust");
    envs.set("SERVER_PROTOCOL", "HTTP/1.1");
    envs.set("HTTP_HOST", request.remote_addr.as_str());
    envs.set("GATEWAY_INTERFACE", "CGI/1.1");
    envs.set("REQUEST_METHOD", request.method.as_str());
    envs.insert("QUERY_STRING".to_owned(), query_string(request.raw_url.as_str()));
    envs.set("REQUEST_URI", request.raw_url.as_str());
    envs.set("PATH_INFO", request.url.as_str());
    envs.set("SCRIPT_NAME", ".");
    envs.set("SCRIPT_FILENAME", request.url.as_str());
    envs.insert("SERVER_PORT".to_owned(), decimal_string(port as u64));
    envs.set("REMOTE_ADDR", request.remote_addr.as_str());
    envs.set("SERVER_NAME", request.remote_addr.as_str());
    let ghost lined = envs@;
    assert(lined == with_request_line(
        base@,
        request.method@,
        request.raw_url@,
        request.url@,
        request.remote_addr@,
        port,
    ));
    let mut i: usize = 0;
    while i < request.headers.len()
        invariant
            i <= request.headers@.len(),
            envs@ == with_headers(lined, request.headers@.take(i as int)),
        decreases request.headers@.len() - i,
    {
        put_header(&mut envs, request.headers[i].0.as_str(), request.headers[i].1.as_str());
        assert(request.headers@.take(i + 1).drop_last() == request.headers@.take(i as int));
        i = i + 1;
    }
    assert(request.headers@.take(i as int) == request.headers@);
    put_content_header(&mut envs, &request.headers, "Content-Type", "CONTENT_TYPE");
    put_content_header(&mut envs, &request.headers, "content-type", "CONTENT_TYPE");
    put_content_header(&mut envs, &request.headers, "Content-Length", "CONTENT_LENGTH");
    put_content_header(&mut envs, &request.headers, "content-length", "CONTENT_LENGTH");
    envs
}

} // verus!
