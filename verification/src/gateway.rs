//! The HTTP side of the CGI web UI: which requests are answered directly,
//! what environment the CGI program gets for the others, and how its output
//! becomes a response.

pub mod request;
pub mod response;
pub mod route;

use crate::env::EnvSet;
use crate::gateway::request::{cgi_environment, cgi_environment_of, CgiRequest};
use crate::gateway::response::CgiError;
use crate::gateway::route::{
    fixed_response, is_home_redirect, is_login_response, route, route_of, FixedResponse, Route,
};
use crate::standard::{SYNOPKG_CLI_WEB, SYNOPKG_PKGDEST};
use vstd::prelude::*;

verus! {

/// One call of the CGI program.
pub struct CgiCall {
    /// The program to run.
    pub program: &'static str,
    /// The directory to run it in.
    pub directory: &'static str,
    /// The environment to run it with.
    pub envs: EnvSet,
}

/// What the gateway does with a request.
pub enum Handling {
    /// It answers by itself.
    Answer(FixedResponse),
    /// It runs the CGI program and hands on what the program writes.
    Forward(CgiCall),
}

/// Decides what to do with a request received on `port`: the routes with a
/// fixed answer are answered, every other request is forwarded to the CGI
/// program with an environment built over `base`.
pub fn handle(base: &EnvSet, request: &CgiRequest, port: u16) -> (handling: Handling)
    ensures
        match route_of(request.method@, request.raw_url@) {
            Route::Login => handling matches Handling::Answer(response) && is_login_response(
                response,
            ),
            Route::Home => handling matches Handling::Answer(response) && is_home_redirect(
                response,
            ),
            Route::Forward => handling matches Handling::Forward(call) && call.program@
                == SYNOPKG_CLI_WEB@ && call.directory@ == SYNOPKG_PKGDEST@ && call.envs@
                == cgi_environment_of(base@, *request, port),
        },
{
    match fixed_response(route(request.method.as_str(), request.raw_url.as_str())) {
        Some(response) => Handling::Answer(response),
        None => Handling::Forward(
            CgiCall {
                program: SYNOPKG_CLI_WEB,
                directory: SYNOPKG_PKGDEST,
                envs: cgi_environment(base, request, port),
            },
        ),
    }
}

/// Why a forwarded request could not be answered with the CGI program's output.
#[derive(Clone, Copy, Debug, PartialEq, Eq, Structural)]
pub enum GatewayFailure {
    /// The CGI program could not be started.
    Spawn,
    /// The request body could not be handed to the CGI program.
    BodyCopy,
    /// The CGI program's output has a malformed header block.
    Output(CgiError),
}

/// The status of the answer to a request that failed: a bad gateway where
/// the CGI program wrote a malformed header block, an internal error where
/// the gateway could not run or feed the program.
pub open spec fn failure_status(failure: GatewayFailure) -> u16 {
    match failure {
        GatewayFailure::Output(_) => 502,
        _ => 500,
    }
}

/// The answer to a request that failed. The failure stays with that request.
pub fn failure_response(failure: GatewayFailure) -> (response: FixedResponse)
    ensures
        response.status_code == failure_status(failure),
        response.headers@.len() == 0,
        response.body@.len() == 0,
{
    let status_code: u16 = match failure {
        GatewayFailure::Output(_) => 502,
        _ => 500,
    };
    FixedResponse { status_code, headers: Vec::new(), body: String::new() }
}

} // verus!
