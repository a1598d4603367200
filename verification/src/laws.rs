//! What holds of the library as a whole, stated in the terms of the
//! contracts of its functions, and proved.

use crate::api::AuthView;
use crate::api::CrateBuildRequestView;
use crate::api::CustomBuildRequestView;
use crate::api::ReportKindView;
use crate::api::ReportRequestView;
use crate::api::SelfTestRequestView;
use crate::api::StdIoResponseView;
use crate::client_v1::auth_of;
use crate::client_v1::Post;
use crate::config::ConfigView;
use crate::error::Error;
use crate::error::FaultKind;
use crate::opts::command_of;
use crate::opts::OptsView;
use crate::run::concluded;
use crate::run::ran;
use crate::run::request_of;
use crate::run::Output;
use crate::value::JsonValue;
use vstd::prelude::*;

verus! {

/// The names of the fields that the request for a command has.
pub open spec fn request_fields(opts: OptsView) -> Set<Seq<char>> {
    match opts {
        OptsView::CustomBuild { .. } => set!["auth"@, "repo_url"@, "commit_sha"@],
        OptsView::CrateBuild { .. } => set!["auth"@, "toolchain"@],
        OptsView::Report { .. } => set!["auth"@, "kind"@],
        OptsView::SelfTest => set!["auth"@],
    }
}

/// The field names used on the wire are pairwise distinct wherever two of
/// them stand in one object.
proof fn field_names_differ()
    ensures
        "name"@ != "token"@,
        "auth"@ != "repo_url"@,
        "auth"@ != "commit_sha"@,
        "repo_url"@ != "commit_sha"@,
        "auth"@ != "toolchain"@,
        "auth"@ != "kind"@,
        "variant"@ != "fields"@,
        "stdout"@ != "stderr"@,
        "stdout"@ != "success"@,
        "stderr"@ != "success"@,
        "Comparison"@ != "Toolchain"@,
{
    reveal_strlit("name");
    reveal_strlit("token");
    reveal_strlit("auth");
    reveal_strlit("repo_url");
    reveal_strlit("commit_sha");
    reveal_strlit("toolchain");
    reveal_strlit("kind");
    reveal_strlit("variant");
    reveal_strlit("fields");
    reveal_strlit("stdout");
    reveal_strlit("stderr");
    reveal_strlit("success");
    reveal_strlit("Comparison");
    reveal_strlit("Toolchain");
    assert("name"@.len() == 4 && "token"@.len() == 5 && "auth"@.len() == 4);
    assert("repo_url"@.len() == 8 && "commit_sha"@.len() == 10 && "toolchain"@.len() == 9);
    assert("kind"@.len() == 4 && "variant"@.len() == 7 && "fields"@.len() == 6);
    assert("stdout"@.len() == 6 && "stderr"@.len() == 6 && "success"@.len() == 7);
    assert("Comparison"@.len() == 10 && "Toolchain"@.len() == 9);
    assert("auth"@[0] != "kind"@[0]);
    assert("stdout"@[3] != "stderr"@[3]);
}

/// The authentication envelope on the wire is an object with the two
/// fields `name` and `token` and no other, and they hold the user name and
/// the token of the configuration.
pub proof fn auth_comes_from_config(config: ConfigView)
    ensures
        auth_of(config).to_value() is Object,
        auth_of(config).to_value()->Object_0.dom() == set!["name"@, "token"@],
        auth_of(config).to_value()->Object_0["name"@] == JsonValue::String(config.username),
        auth_of(config).to_value()->Object_0["token"@] == JsonValue::String(config.auth_token),
{
    field_names_differ();
    assert(auth_of(config).to_value()->Object_0.dom() =~= set!["name"@, "token"@]);
}

/// For each of the four commands, the request on the wire is an object
/// that has the fields of the command and `auth` and no other, and `auth`
/// is the envelope that the configuration gives.
pub proof fn request_embeds_auth(config: ConfigView, opts: OptsView)
    ensures
        request_of(config, opts) is Object,
        request_of(config, opts)->Object_0.dom() == request_fields(opts),
        request_of(config, opts)->Object_0["auth"@] == auth_of(config).to_value(),
{
    field_names_differ();
    assert(request_of(config, opts)->Object_0.dom() =~= request_fields(opts));
}

/// The invocations that the command line admits: a known command with at
/// least the operands it needs, and for `report` a known kind with at
/// least the operands that the kind needs.
pub open spec fn admitted(args: Seq<Seq<char>>) -> bool {
    args.len() >= 1 && {
        ||| args[0] == "custom-build"@ && args.len() >= 3
        ||| args[0] == "crate-build"@ && args.len() >= 2
        ||| args[0] == "report"@ && args.len() >= 2 && {
            ||| args[1] == "comparison"@ && args.len() >= 4
            ||| args[1] == "toolchain"@ && args.len() >= 3
        }
        ||| args[0] == "self-test"@
    }
}

/// The command names, and the kinds of report, are pairwise distinct.
proof fn keywords_differ()
    ensures
        "custom-build"@ != "crate-build"@,
        "custom-build"@ != "report"@,
        "custom-build"@ != "self-test"@,
        "crate-build"@ != "report"@,
        "crate-build"@ != "self-test"@,
        "report"@ != "self-test"@,
        "comparison"@ != "toolchain"@,
{
    reveal_strlit("custom-build");
    reveal_strlit("crate-build");
    reveal_strlit("report");
    reveal_strlit("self-test");
    reveal_strlit("comparison");
    reveal_strlit("toolchain");
    assert("custom-build"@.len() == 12 && "crate-build"@.len() == 11);
    assert("report"@.len() == 6 && "self-test"@.len() == 9);
    assert("comparison"@.len() == 10 && "toolchain"@.len() == 9);
}

/// A command line yields a command exactly when it is admitted: an absent
/// or unknown command, an unknown kind of report and a missing operand are
/// all rejected.
pub proof fn malformed_invocations_are_rejected(args: Seq<Seq<char>>)
    ensures
        command_of(args) is Some <==> admitted(args),
{
    keywords_differ();
}

/// A command line that is not admitted never leads to a request: the
/// first half of the invocation ends in an error, and where the
/// configuration could be read that error is `OptParse`.
pub proof fn malformed_invocations_send_nothing(
    r: Result<Post, Error>,
    config_text: Seq<char>,
    args: Seq<Seq<char>>,
)
    requires
        ran(r, config_text, args),
        !admitted(args),
    ensures
        r is Err,
        ConfigView::from_text(config_text) is Some ==> r matches Err(Error::OptParse),
{
    malformed_invocations_are_rejected(args);
}

/// A transport error is no answer of the service: it carries the fault
/// that caused it and a call stack of at least one frame, and describes
/// itself by what the fault said.
pub proof fn transport_error_carries_cause_and_trace(
    e: Error,
    kind: FaultKind,
    message: Seq<char>,
)
    requires
        e.is_transport(kind, message),
    ensures
        e is TransportError,
        e.cause_of() is Some,
        e.cause_of()->Some_0.kind == kind,
        e.cause_of()->Some_0.message@ == message,
        e.trace_of() is Some,
        e.trace_of()->Some_0.frames@.len() > 0,
        e.description_of() == message,
{
}

/// An exchange that failed outright is fatal. Whatever the fault, the
/// invocation ends in the transport error that was made of it, unchanged:
/// it is never turned into a successful end and never into the failure of
/// a remote command, and its call stack has at least one frame.
pub proof fn failed_exchange_is_fatal(
    r: Result<Output, Error>,
    e: Error,
    kind: FaultKind,
    message: Seq<char>,
)
    requires
        e.is_transport(kind, message),
        concluded(r, Err(e)),
    ensures
        r == Err::<Output, Error>(e),
        r is Err,
        r->Err_0.is_transport(kind, message),
        r->Err_0.trace_of()->Some_0.frames@.len() > 0,
{
}

/// An authentication envelope that is written and read back is the same.
pub proof fn auth_round_trip(auth: AuthView)
    ensures
        AuthView::from_value(auth.to_value()) == Some(auth),
{
    field_names_differ();
}

/// A kind of report that is written and read back is the same.
pub proof fn report_kind_round_trip(kind: ReportKindView)
    ensures
        ReportKindView::from_value(kind.to_value()) == Some(kind),
{
    field_names_differ();
}

/// A request for a custom build that is written and read back is the same.
pub proof fn custom_build_round_trip(request: CustomBuildRequestView)
    ensures
        CustomBuildRequestView::from_value(request.to_value()) == Some(request),
{
    field_names_differ();
    auth_round_trip(request.auth);
}

/// A request for a crate build that is written and read back is the same.
pub proof fn crate_build_round_trip(request: CrateBuildRequestView)
    ensures
        CrateBuildRequestView::from_value(request.to_value()) == Some(request),
{
    field_names_differ();
    auth_round_trip(request.auth);
}

/// A request for a report that is written and read back is the same.
pub proof fn report_round_trip(request: ReportRequestView)
    ensures
        ReportRequestView::from_value(request.to_value()) == Some(request),
{
    field_names_differ();
    auth_round_trip(request.auth);
    report_kind_round_trip(request.kind);
}

/// A request for a self-test that is written and read back is the same.
pub proof fn self_test_round_trip(request: SelfTestRequestView)
    ensures
        SelfTestRequestView::from_value(request.to_value()) == Some(request),
{
    auth_round_trip(request.auth);
}

/// A response that is written and read back has the same state and the
/// same text.
pub proof fn response_round_trip(response: StdIoResponseView)
    ensures
        StdIoResponseView::from_value(response.to_value()) == Some(response),
{
    field_names_differ();
}

} // verus!
