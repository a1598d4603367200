//! One exchange with the service: the request that is to be posted, and
//! what the body of the answer means.

use crate::api::Auth;
use crate::api::AuthView;
use crate::api::CrateBuildRequest;
use crate::api::CrateBuildRequestView;
use crate::api::CustomBuildRequest;
use crate::api::CustomBuildRequestView;
use crate::api::ReportKind;
use crate::api::ReportRequest;
use crate::api::ReportRequestView;
use crate::api::Request;
use crate::api::SelfTestRequest;
use crate::api::SelfTestRequestView;
use crate::api::StdIoResponse;
use crate::api::StdIoResponseView;
use crate::config::Config;
use crate::config::ConfigView;
use crate::error::decode;
use crate::error::decoder_message;
use crate::error::decode_error;
use crate::error::Error;
use crate::error::FaultKind;
use crate::value;
use crate::value::parsed;
use crate::value::json_text;
use crate::limits::DEPTH;
use crate::value::nested_within_more;
use crate::value::JsonValue;
use rustc_serialize::json::EncoderError;
use vstd::prelude::*;
use vstd::string::StringExecFns;

verus! {

/// One HTTP POST that is to be made: where to, and with what body.
#[derive(Debug, Clone, PartialEq, Eq)]
pub struct Post {
    pub url: String,
    pub body: String,
}

/// The texts of a POST.
pub struct PostView {
    pub url: Seq<char>,
    pub body: Seq<char>,
}

impl View for Post {
    type V = PostView;

    open spec fn view(&self) -> PostView {
        PostView { url: self.url@, body: self.body@ }
    }
}

/// The address of an operation: `{server_url}/api/v1/{name}`.
pub open spec fn endpoint(server_url: Seq<char>, name: Seq<char>) -> Seq<char> {
    server_url + "/api/v1/"@ + name
}

/// The authentication envelope that a configuration gives.
pub open spec fn auth_of(config: ConfigView) -> AuthView {
    AuthView { name: config.username, token: config.auth_token }
}

/// The POST that carries a request to an operation.
pub open spec fn post_of(server_url: Seq<char>, name: Seq<char>, request: JsonValue) -> PostView {
    PostView { url: endpoint(server_url, name), body: json_text(request) }
}

/// Whether `r` is the POST `expected`, prepared.
pub open spec fn prepared(r: Result<Post, Error>, expected: PostView) -> bool {
    r matches Ok(post) && post@ == expected
}

/// What the body of an answer stands for: it must be within the parser's
/// limits, be JSON, and have the shape of a response.
pub open spec fn response_of(body: Seq<char>) -> Option<StdIoResponseView> {
    match parsed(body) {
        Some(v) => StdIoResponseView::from_value(v),
        None => None,
    }
}

/// Whether `r` is the result of an exchange that was answered with `body`:
/// the standard output of a remote command that succeeded, the error of one
/// that failed, or a transport error of kind `Decode` where the body is no
/// response.
pub open spec fn answered(r: Result<String, Error>, body: Seq<char>) -> bool {
    match response_of(body) {
        Some(response) => classified(r, response),
        None => r matches Err(e) && e.is_transport(FaultKind::Decode, decoder_message()),
    }
}

/// Whether `r` is what a response amounts to: the standard output of a
/// remote command that succeeded, or the error of one that failed.
pub open spec fn classified(r: Result<String, Error>, response: StdIoResponseView) -> bool {
    match response {
        StdIoResponseView::Success { stdout } => r matches Ok(text) && text@ == stdout,
        StdIoResponseView::Failure { stderr } => r matches Err(e) && e.is_remote_failure(stderr),
    }
}

/// The address of the operation `name` on the configured server.
pub fn api_url(config: &Config, name: &str) -> (url: String)
    ensures
        url@ == endpoint(config@.server_url, name@),
{
    let mut url = config.server_url.clone();
    url.append("/api/v1/");
    url.append(name);
    url
}

/// Makes the POST for the operation `name` out of the outcome of printing
/// its request.
pub fn post_for(config: &Config, name: &str, encoded: Result<String, EncoderError>) -> (r: Result<
    Post,
    Error,
>)
    ensures
        match encoded {
            Ok(body) => r matches Ok(post) && post@ == (PostView {
                url: endpoint(config@.server_url, name@),
                body: body@,
            }),
            Err(_) => r matches Err(e) && e.is_transport(FaultKind::Encode, "encoder error"@),
        },
{
    match encoded {
        Ok(body) => Ok(Post { url: api_url(config, name), body }),
        Err(e) => Err(Error::from(e)),
    }
}

/// Prepares the POST that carries `req` to the operation `name`.
pub fn stdio_req(config: &Config, name: &str, req: &Request) -> (r: Result<Post, Error>)
    ensures
        prepared(r, post_of(config@.server_url, name@, req@.to_value())),
{
    let j = req.to_json();
    proof {
        req@.nests_three_deep();
        nested_within_more(req@.to_value(), 3, DEPTH as nat);
    }
    post_for(config, name, value::encode(&j))
}

/// What a response amounts to: the standard output of the remote command
/// if it succeeded, and the error that carries its standard error if not.
pub fn classify(response: StdIoResponse) -> (r: Result<String, Error>)
    ensures
        classified(r, response@),
{
    match response {
        StdIoResponse::Success { stdout } => Ok(stdout),
        StdIoResponse::Failure { stderr } => Err(Error::remote_failure(stderr)),
    }
}

/// Reads the body of an answer and classifies the response in it.
pub fn stdio_res(body: &str) -> (r: Result<String, Error>)
    ensures
        answered(r, body@),
{
    match decode(body) {
        Ok(j) => match StdIoResponse::from_json(&j) {
            Some(response) => classify(response),
            None => Err(decode_error()),
        },
        Err(e) => Err(e),
    }
}

/// The client of one configured server.
pub struct Ctxt {
    config: Config,
}

impl View for Ctxt {
    type V = ConfigView;

    closed spec fn view(&self) -> ConfigView {
        self.config@
    }
}

impl Ctxt {
    /// A client of the server that `config` names.
    pub fn new(config: Config) -> (ctxt: Ctxt)
        ensures
            ctxt@ == config@,
    {
        Ctxt { config: config }
    }

    /// Prepares the request for a build of one commit of a repository.
    pub fn custom_build(&self, repo_url: String, commit_sha: String) -> (r: Result<Post, Error>)
        ensures
            prepared(
                r,
                post_of(
                    self@.server_url,
                    "custom_build"@,
                    (CustomBuildRequestView {
                        auth: auth_of(self@),
                        repo_url: repo_url@,
                        commit_sha: commit_sha@,
                    }).to_value(),
                ),
            ),
    {
        let req = CustomBuildRequest {
            auth: self.auth(),
            repo_url: repo_url,
            commit_sha: commit_sha,
        };
        stdio_req(&self.config, "custom_build", &Request::CustomBuild(req))
    }

    /// Prepares the request for a build of the crates with one toolchain.
    pub fn crate_build(&self, toolchain: String) -> (r: Result<Post, Error>)
        ensures
            prepared(
                r,
                post_of(
                    self@.server_url,
                    "crate_build"@,
                    (CrateBuildRequestView {
                        auth: auth_of(self@),
                        toolchain: toolchain@,
                    }).to_value(),
                ),
            ),
    {
        let req = CrateBuildRequest { auth: self.auth(), toolchain: toolchain };
        stdio_req(&self.config, "crate_build", &Request::CrateBuild(req))
    }

    /// Prepares the request for a report.
    pub fn report(&self, kind: ReportKind) -> (r: Result<Post, Error>)
        ensures
            prepared(
                r,
                post_of(
                    self@.server_url,
                    "report"@,
                    (ReportRequestView { auth: auth_of(self@), kind: kind@ }).to_value(),
                ),
            ),
    {
        let req = ReportRequest { auth: self.auth(), kind: kind };
        stdio_req(&self.config, "report", &Request::Report(req))
    }

    /// Prepares the request for a self-test of the service.
    pub fn self_test(&self) -> (r: Result<Post, Error>)
        ensures
            prepared(
                r,
                post_of(
                    self@.server_url,
                    "self-test"@,
                    (SelfTestRequestView { auth: auth_of(self@) }).to_value(),
                ),
            ),
    {
        let req = SelfTestRequest { auth: self.auth() };
        stdio_req(&self.config, "self-test", &Request::SelfTest(req))
    }

    /// The authentication envelope, made anew from the configuration.
    pub fn auth(&self) -> (auth: Auth)
        ensures
            auth@ == auth_of(self@),
    {
        Auth { name: self.config.username.clone(), token: self.config.auth_token.clone() }
    }
}

} // verus!
