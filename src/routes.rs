//! The route table built from a configuration, and the response texts.
//!
//! Each target gets two routes at `/<name>`: a POST route that builds with
//! that target's command and output pattern, and a GET route that answers
//! with a usage hint. The table is plain data for the HTTP layer to bind.

use vstd::prelude::*;
use crate::config::{BuildConfig, Config};
use crate::dispatch::{concat_str, failure_message, BuildResult};
use crate::upload::{upload_error_message, UploadError};

verus! {

/// The answer of every GET route.
pub const USAGE_MESSAGE: &'static str = "Please use HTTP POST with a source file to build";

/// An HTTP method that a route answers.
#[derive(Debug, Clone, Copy, PartialEq, Eq, Structural)]
pub enum Method {
    Get,
    Post,
}

/// What a route does.
#[derive(Debug, PartialEq, Eq)]
pub enum Handler {
    /// Stage the upload and run `command`, locating the artifact by `output`.
    Build { command: String, output: String },
    /// Answer with [`USAGE_MESSAGE`].
    Usage,
}

/// One entry of the route table.
#[derive(Debug, PartialEq, Eq)]
pub struct Route {
    pub path: String,
    pub method: Method,
    pub handler: Handler,
}

/// The path of the routes of target `name`.
pub open spec fn route_path_spec(name: Seq<char>) -> Seq<char> {
    seq!['/'] + name
}

/// Whether `r` is the POST route of the target `name` with settings `target`.
pub open spec fn is_post_route(r: Route, name: Seq<char>, target: BuildConfig) -> bool {
    &&& r.path@ == route_path_spec(name)
    &&& r.method == Method::Post
    &&& r.handler matches Handler::Build { command, output }
    &&& command@ == target.build@
    &&& output@ == target.output@
}

/// Whether `r` is the GET route of the target `name`.
pub open spec fn is_get_route(r: Route, name: Seq<char>) -> bool {
    &&& r.path@ == route_path_spec(name)
    &&& r.method == Method::Get
    &&& r.handler == Handler::Usage
}

/// The path of the routes of target `name`.
pub fn route_path(name: &str) -> (r: String)
    ensures
        r@ == route_path_spec(name@),
{
    let r = concat_str("/", name);
    proof {
        reveal_strlit("/");
    }
    r
}

/// The route table of `config`: for the target at index `i`, its POST route at
/// index `2 * i` and its GET route at index `2 * i + 1`. Every POST route
/// carries its own target's command and output pattern, and no other.
pub fn route_table(config: &Config) -> (r: Vec<Route>)
    ensures
        r@.len() == 2 * config.sections_view().len(),
        forall|i: int|
            0 <= i < config.sections_view().len() ==> is_post_route(
                #[trigger] r@[2 * i],
                config.sections_view()[i].0@,
                config.sections_view()[i].1,
            ) && is_get_route(r@[2 * i + 1], config.sections_view()[i].0@),
{
    let sections = config.sections();
    let n = sections.len();
    let mut r: Vec<Route> = Vec::new();
    let mut i: usize = 0;
    while i < n
        invariant
            n == config.sections_view().len(),
            sections@ == config.sections_view(),
            i <= n,
            r@.len() == 2 * i,
            forall|k: int|
                0 <= k < i ==> is_post_route(
                    #[trigger] r@[2 * k],
                    config.sections_view()[k].0@,
                    config.sections_view()[k].1,
                ) && is_get_route(r@[2 * k + 1], config.sections_view()[k].0@),
        decreases n - i,
    {
        let name = sections[i].0.as_str();
        let target = &sections[i].1;
        let post = Route {
            path: route_path(name),
            method: Method::Post,
            handler: Handler::Build { command: target.build.clone(), output: target.output.clone() },
        };
        let get = Route { path: route_path(name), method: Method::Get, handler: Handler::Usage };
        let ghost before = r@;
        r.push(post);
        r.push(get);
        proof {
            assert forall|k: int| 0 <= k < i + 1 implies is_post_route(
                #[trigger] r@[2 * k],
                config.sections_view()[k].0@,
                config.sections_view()[k].1,
            ) && is_get_route(r@[2 * k + 1], config.sections_view()[k].0@) by {
                if k < i {
                    assert(r@[2 * k] == before[2 * k]);
                    assert(r@[2 * k + 1] == before[2 * k + 1]);
                }
            }
        }
        i += 1;
    }
    r
}

/// The reply to a build request: success with its detail, or failure with
/// its reason.
pub open spec fn response_spec(ok: bool, detail: Seq<char>) -> Seq<char> {
    if ok {
        "Build success: \n"@ + detail
    } else {
        "Build failed: \n"@ + detail
    }
}

/// The reply to a build request whose result is `result`.
pub fn response_text(result: &Result<String, String>) -> (r: String)
    ensures
        result matches Ok(s) ==> r@ == response_spec(true, s@),
        result matches Err(e) ==> r@ == response_spec(false, e@),
{
    match result {
        Ok(s) => concat_str("Build success: \n", s.as_str()),
        Err(e) => concat_str("Build failed: \n", e.as_str()),
    }
}

/// The reply to a build that ran: the artifact's path, or the failure.
pub fn build_response(result: &BuildResult) -> (r: String)
    ensures
        *result matches BuildResult::Success { artifact } ==> r@ == response_spec(true, artifact@),
        *result matches BuildResult::Failure { failure } ==> r@ == response_spec(
            false,
            failure_message(failure),
        ),
{
    match result {
        BuildResult::Success { artifact } => response_text(&Ok(artifact.clone())),
        BuildResult::Failure { failure } => response_text(&Err(failure.message())),
    }
}

/// The reply to a request whose upload failed.
pub fn upload_failure_response(error: &UploadError) -> (r: String)
    ensures
        r@ == response_spec(false, upload_error_message(*error)),
{
    response_text(&Err(error.message()))
}

} // verus!
