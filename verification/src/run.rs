//! One invocation from end to end: configuration and command line in, the
//! request to post out; then the answer in, and what to tell the operator
//! out. The exchange itself happens between the two halves, outside.

use crate::api::CrateBuildRequestView;
use crate::api::CustomBuildRequestView;
use crate::api::ReportRequestView;
use crate::api::SelfTestRequestView;
use crate::api::StdIoResponseView;
use crate::client_v1::auth_of;
use crate::client_v1::post_of;
use crate::client_v1::prepared;
use crate::client_v1::response_of;
use crate::client_v1::stdio_res;
use crate::client_v1::Ctxt;
use crate::client_v1::Post;
use crate::config::load_config;
use crate::config::Config;
use crate::config::ConfigView;
use crate::error::decoder_message;
use crate::error::Error;
use crate::error::FaultKind;
use crate::opts::command_of;
use crate::opts::parse_opts;
use crate::opts::texts;
use crate::opts::Opts;
use crate::opts::OptsView;
use crate::value::JsonValue;
use vstd::prelude::*;
use vstd::string::StringExecFns;

verus! {

/// What an invocation that ends successfully writes to the two streams of
/// the process.
#[derive(Debug, Clone, PartialEq, Eq)]
pub struct Output {
    pub stdout: String,
    pub stderr: String,
}

/// Whether `r` is a successful end that writes the two given texts.
pub open spec fn wrote(r: Result<Output, Error>, stdout: Seq<char>, stderr: Seq<char>) -> bool {
    r matches Ok(out) && out.stdout@ == stdout && out.stderr@ == stderr
}

/// The name of the operation that serves a command.
pub open spec fn operation_of(opts: OptsView) -> Seq<char> {
    match opts {
        OptsView::CustomBuild { .. } => "custom_build"@,
        OptsView::CrateBuild { .. } => "crate_build"@,
        OptsView::Report { .. } => "report"@,
        OptsView::SelfTest => "self-test"@,
    }
}

/// The request that a command amounts to under a configuration: the
/// command's own fields, and the authentication envelope that the
/// configuration gives.
pub open spec fn request_of(config: ConfigView, opts: OptsView) -> JsonValue {
    match opts {
        OptsView::CustomBuild { repo_url, commit_sha } => (CustomBuildRequestView {
            auth: auth_of(config),
            repo_url,
            commit_sha,
        }).to_value(),
        OptsView::CrateBuild { toolchain } => (CrateBuildRequestView {
            auth: auth_of(config),
            toolchain,
        }).to_value(),
        OptsView::Report { kind } => (ReportRequestView { auth: auth_of(config), kind }).to_value(),
        OptsView::SelfTest => (SelfTestRequestView { auth: auth_of(config) }).to_value(),
    }
}

/// The line that stands above the relayed standard error of a remote
/// command that failed.
pub open spec fn failure_header() -> Seq<char> {
    "server reported an error executing the remote process"@
}

/// What is written to standard error for a remote command that failed: the
/// header, an empty line, and what the command wrote, each ended by a line
/// feed.
pub open spec fn relayed(stderr: Seq<char>) -> Seq<char> {
    failure_header() + "\n"@ + "\n"@ + stderr + "\n"@
}

/// Whether `r` is what the operator gets for the result `res` of an
/// exchange. The standard output of a remote command goes to standard
/// output as it is. A failure of the remote command is relayed on standard
/// error and the invocation still ends successfully: the client did what
/// it was asked. Every other error is fatal and is handed on unchanged.
pub open spec fn reported(r: Result<Output, Error>, res: Result<String, Error>) -> bool {
    match res {
        Ok(text) => wrote(r, text@, Seq::empty()),
        Err(Error::RemoteProcessFailure(stderr, _)) => wrote(r, Seq::empty(), relayed(stderr@)),
        Err(e) => r == Err::<Output, Error>(e),
    }
}

/// Prepares the request that a command amounts to.
pub fn run_run(config: Config, opts: Opts) -> (r: Result<Post, Error>)
    ensures
        prepared(
            r,
            post_of(config@.server_url, operation_of(opts@), request_of(config@, opts@)),
        ),
{
    let client_v1 = Ctxt::new(config);
    match opts {
        Opts::CustomBuild { repo_url, commit_sha } => client_v1.custom_build(repo_url, commit_sha),
        Opts::CrateBuild { toolchain } => client_v1.crate_build(toolchain),
        Opts::Report { kind } => client_v1.report(kind),
        Opts::SelfTest => client_v1.self_test(),
    }
}

/// Decides what the operator gets for the result of an exchange.
pub fn report(res: Result<String, Error>) -> (r: Result<Output, Error>)
    ensures
        reported(r, res),
{
    match res {
        Ok(text) => Ok(Output { stdout: text, stderr: String::new() }),
        Err(Error::RemoteProcessFailure(stderr, _)) => {
            let mut text = "server reported an error executing the remote process".to_owned();
            text.append("\n");
            text.append("\n");
            text.append(stderr.as_str());
            text.append("\n");
            Ok(Output { stdout: String::new(), stderr: text })
        },
        Err(e) => Err(e),
    }
}

/// Whether `r` is what the first half of an invocation gives for the text
/// of the configuration file and the arguments after the program's name.
/// A configuration that cannot be read is a transport error of kind
/// `Decode`. With the configuration read, a malformed command line is
/// `OptParse`, and any other command line gives the request of its command.
pub open spec fn ran(r: Result<Post, Error>, config_text: Seq<char>, args: Seq<Seq<char>>) -> bool {
    match ConfigView::from_text(config_text) {
        None => r matches Err(e) && e.is_transport(FaultKind::Decode, decoder_message()),
        Some(config) => match command_of(args) {
            None => r matches Err(e) && e is OptParse,
            Some(opts) => prepared(
                r,
                post_of(config.server_url, operation_of(opts), request_of(config, opts)),
            ),
        },
    }
}

/// The first half of an invocation: reads the configuration from the text
/// of its file, then the command from the arguments that follow the
/// program's name, and prepares the request. A configuration that cannot
/// be read is reported before a malformed command line, and either way no
/// request is made.
pub fn run(config_text: &str, args: &[String]) -> (r: Result<Post, Error>)
    ensures
        ran(r, config_text@, texts(args@)),
{
    let config = match load_config(config_text) {
        Ok(config) => config,
        Err(e) => { return Err(e); },
    };
    let opts = match parse_opts(args) {
        Ok(opts) => opts,
        Err(e) => { return Err(e); },
    };
    run_run(config, opts)
}

/// Whether `r` is what the operator gets once the exchange is over, where
/// `reply` is the body of the answer, or the error that stood in its way.
/// There are three ends and no other: the remote command succeeded, the
/// remote command failed and its failure is relayed, or the client failed.
pub open spec fn concluded(r: Result<Output, Error>, reply: Result<String, Error>) -> bool {
    match reply {
        Ok(body) => match response_of(body@) {
            Some(StdIoResponseView::Success { stdout }) => wrote(r, stdout, Seq::empty()),
            Some(StdIoResponseView::Failure { stderr }) => wrote(
                r,
                Seq::empty(),
                relayed(stderr),
            ),
            None => r matches Err(e) && e.is_transport(FaultKind::Decode, decoder_message()),
        },
        Err(e) => reported(r, Err(e)),
    }
}

/// The second half of an invocation: takes the body of the answer, or the
/// error that stood in its way, and decides what the operator gets.
pub fn conclude(reply: Result<String, Error>) -> (r: Result<Output, Error>)
    ensures
        concluded(r, reply),
{
    let res = match reply {
        Ok(body) => stdio_res(body.as_str()),
        Err(e) => Err(e),
    };
    report(res)
}

} // verus!
