//! The shapes that travel between client and service: the authentication
//! envelope, one request per operation, and the response that reports how
//! the remote command ended. Each shape has its JSON schema in both
//! directions.

use crate::value;
use crate::value::boolean_field_of;
use crate::value::field_of;
use crate::value::json_value;
use crate::value::nested_within;
use crate::value::string_field_of;
use crate::value::JsonValue;
use crate::text::same;
use crate::text::viewed;
use rustc_serialize::json::Json;
use vstd::prelude::*;

verus! {

/// Who sends a request.
#[derive(Debug, Clone, PartialEq, Eq)]
pub struct Auth {
    pub name: String,
    pub token: String,
}

/// The texts of an authentication envelope.
pub struct AuthView {
    pub name: Seq<char>,
    pub token: Seq<char>,
}

impl View for Auth {
    type V = AuthView;

    open spec fn view(&self) -> AuthView {
        AuthView { name: self.name@, token: self.token@ }
    }
}

impl AuthView {
    /// `{"name": .., "token": ..}`
    pub open spec fn to_value(self) -> JsonValue {
        JsonValue::Object(
            Map::empty().insert("name"@, JsonValue::String(self.name)).insert(
                "token"@,
                JsonValue::String(self.token),
            ),
        )
    }

    /// An object with string fields `name` and `token`; other fields are
    /// passed over.
    pub open spec fn from_value(v: JsonValue) -> Option<AuthView> {
        match (string_field_of(v, "name"@), string_field_of(v, "token"@)) {
            (Some(name), Some(token)) => Some(AuthView { name, token }),
            _ => None,
        }
    }
}

impl Auth {
    /// This value as JSON.
    pub fn to_json(&self) -> (j: Json)
        ensures
            json_value(j) == self@.to_value(),
    {
        let mut j = value::object();
        value::insert(&mut j, "name", value::string(&self.name));
        value::insert(&mut j, "token", value::string(&self.token));
        j
    }

    /// Reads a value of this shape from JSON; `None` where the JSON has
    /// another shape.
    pub fn from_json(j: &Json) -> (r: Option<Auth>)
        ensures
            viewed(r) == AuthView::from_value(json_value(*j)),
    {
        match (value::string_field(j, "name"), value::string_field(j, "token")) {
            (Some(name), Some(token)) => Some(Auth { name, token }),
            _ => None,
        }
    }
}

/// Which report is asked for.
#[derive(Debug, Clone, PartialEq, Eq)]
pub enum ReportKind {
    Comparison { toolchain_from: String, toolchain_to: String },
    Toolchain(String),
}

/// The texts of a kind of report.
pub enum ReportKindView {
    Comparison { toolchain_from: Seq<char>, toolchain_to: Seq<char> },
    Toolchain(Seq<char>),
}

impl View for ReportKind {
    type V = ReportKindView;

    open spec fn view(&self) -> ReportKindView {
        match self {
            ReportKind::Comparison { toolchain_from, toolchain_to } => ReportKindView::Comparison {
                toolchain_from: toolchain_from@,
                toolchain_to: toolchain_to@,
            },
            ReportKind::Toolchain(toolchain) => ReportKindView::Toolchain(toolchain@),
        }
    }
}

/// A variant of an enum on the wire: `{"variant": name, "fields": [..]}`.
pub open spec fn variant_value(name: Seq<char>, fields: Seq<JsonValue>) -> JsonValue {
    JsonValue::Object(
        Map::empty().insert("variant"@, JsonValue::String(name)).insert(
            "fields"@,
            JsonValue::Array(fields),
        ),
    )
}

impl ReportKindView {
    /// The variant's name and its fields in the order of declaration.
    pub open spec fn to_value(self) -> JsonValue {
        match self {
            ReportKindView::Comparison { toolchain_from, toolchain_to } => variant_value(
                "Comparison"@,
                seq![JsonValue::String(toolchain_from), JsonValue::String(toolchain_to)],
            ),
            ReportKindView::Toolchain(toolchain) => variant_value(
                "Toolchain"@,
                seq![JsonValue::String(toolchain)],
            ),
        }
    }

    /// An object with a string field `variant` that names one of the two
    /// kinds, and an array field `fields` that holds as many strings as the
    /// kind has fields.
    pub open spec fn from_value(v: JsonValue) -> Option<ReportKindView> {
        match (string_field_of(v, "variant"@), field_of(v, "fields"@)) {
            (Some(name), Some(JsonValue::Array(fields))) => {
                if name == "Comparison"@ {
                    if fields.len() == 2 {
                        match (fields[0], fields[1]) {
                            (JsonValue::String(from), JsonValue::String(to)) => Some(
                                ReportKindView::Comparison {
                                    toolchain_from: from,
                                    toolchain_to: to,
                                },
                            ),
                            _ => None,
                        }
                    } else {
                        None
                    }
                } else if name == "Toolchain"@ {
                    if fields.len() == 1 {
                        match fields[0] {
                            JsonValue::String(toolchain) => Some(
                                ReportKindView::Toolchain(toolchain),
                            ),
                            _ => None,
                        }
                    } else {
                        None
                    }
                } else {
                    None
                }
            },
            _ => None,
        }
    }
}

/// Builds `{"variant": name, "fields": [..]}`.
fn variant(name: &str, fields: Vec<Json>) -> (j: Json)
    ensures
        json_value(j) == variant_value(name@, value::json_values(fields@)),
{
    let mut j = value::object();
    value::insert(&mut j, "variant", value::text(name));
    value::insert(&mut j, "fields", value::array(fields));
    j
}

impl ReportKind {
    /// This value as JSON.
    pub fn to_json(&self) -> (j: Json)
        ensures
            json_value(j) == self@.to_value(),
    {
        match self {
            ReportKind::Comparison { toolchain_from, toolchain_to } => {
                let mut fields: Vec<Json> = Vec::new();
                fields.push(value::string(toolchain_from));
                fields.push(value::string(toolchain_to));
                assert(value::json_values(fields@) =~= seq![
                    JsonValue::String(toolchain_from@),
                    JsonValue::String(toolchain_to@),
                ]);
                variant("Comparison", fields)
            },
            ReportKind::Toolchain(toolchain) => {
                let mut fields: Vec<Json> = Vec::new();
                fields.push(value::string(toolchain));
                assert(value::json_values(fields@) =~= seq![JsonValue::String(toolchain@)]);
                variant("Toolchain", fields)
            },
        }
    }

    /// Reads a value of this shape from JSON; `None` where the JSON has
    /// another shape.
    pub fn from_json(j: &Json) -> (r: Option<ReportKind>)
        ensures
            viewed(r) == ReportKindView::from_value(json_value(*j)),
    {
        let name = match value::string_field(j, "variant") {
            Some(name) => name,
            None => { return None; },
        };
        let fields = match j.find("fields") {
            Some(f) => match f.as_array() {
                Some(fields) => fields,
                None => { return None; },
            },
            None => { return None; },
        };
        proof {
            let items = field_of(json_value(*j), "fields"@)->Some_0->Array_0;
            assert(value::json_values(fields@) == items);
            assert(forall|i: int|
                0 <= i < fields@.len() ==> json_value(#[trigger] fields@[i]) == items[i]);
        }
        if same(name.as_str(), "Comparison") {
            if fields.len() == 2 {
                match (fields[0].as_string(), fields[1].as_string()) {
                    (Some(from), Some(to)) => Some(
                        ReportKind::Comparison {
                            toolchain_from: from.to_owned(),
                            toolchain_to: to.to_owned(),
                        },
                    ),
                    _ => None,
                }
            } else {
                None
            }
        } else if same(name.as_str(), "Toolchain") {
            if fields.len() == 1 {
                match fields[0].as_string() {
                    Some(toolchain) => Some(ReportKind::Toolchain(toolchain.to_owned())),
                    None => None,
                }
            } else {
                None
            }
        } else {
            None
        }
    }
}

/// Asks for a build of one commit of a repository.
#[derive(Debug, Clone, PartialEq, Eq)]
pub struct CustomBuildRequest {
    pub auth: Auth,
    pub repo_url: String,
    pub commit_sha: String,
}

/// The texts of a request for a custom build.
pub struct CustomBuildRequestView {
    pub auth: AuthView,
    pub repo_url: Seq<char>,
    pub commit_sha: Seq<char>,
}

impl View for CustomBuildRequest {
    type V = CustomBuildRequestView;

    open spec fn view(&self) -> CustomBuildRequestView {
        CustomBuildRequestView {
            auth: self.auth@,
            repo_url: self.repo_url@,
            commit_sha: self.commit_sha@,
        }
    }
}

impl CustomBuildRequestView {
    /// `{"auth": .., "repo_url": .., "commit_sha": ..}`
    pub open spec fn to_value(self) -> JsonValue {
        JsonValue::Object(
            Map::empty().insert("auth"@, self.auth.to_value()).insert(
                "repo_url"@,
                JsonValue::String(self.repo_url),
            ).insert("commit_sha"@, JsonValue::String(self.commit_sha)),
        )
    }

    /// An object with the field `auth` and string fields `repo_url` and
    /// `commit_sha`; other fields are passed over.
    pub open spec fn from_value(v: JsonValue) -> Option<CustomBuildRequestView> {
        match (
            auth_field_of(v),
            string_field_of(v, "repo_url"@),
            string_field_of(v, "commit_sha"@),
        ) {
            (Some(auth), Some(repo_url), Some(commit_sha)) => Some(
                CustomBuildRequestView { auth, repo_url, commit_sha },
            ),
            _ => None,
        }
    }
}

/// The field `auth` of an object, read as an authentication envelope.
pub open spec fn auth_field_of(v: JsonValue) -> Option<AuthView> {
    match field_of(v, "auth"@) {
        Some(a) => AuthView::from_value(a),
        None => None,
    }
}

/// Reads the field `auth` of an object.
fn auth_field(j: &Json) -> (r: Option<Auth>)
    ensures
        viewed(r) == auth_field_of(json_value(*j)),
{
    match j.find("auth") {
        Some(a) => Auth::from_json(a),
        None => None,
    }
}

impl CustomBuildRequest {
    /// This value as JSON.
    pub fn to_json(&self) -> (j: Json)
        ensures
            json_value(j) == self@.to_value(),
    {
        let mut j = value::object();
        value::insert(&mut j, "auth", self.auth.to_json());
        value::insert(&mut j, "repo_url", value::string(&self.repo_url));
        value::insert(&mut j, "commit_sha", value::string(&self.commit_sha));
        j
    }

    /// Reads a value of this shape from JSON; `None` where the JSON has
    /// another shape.
    pub fn from_json(j: &Json) -> (r: Option<CustomBuildRequest>)
        ensures
            viewed(r) == CustomBuildRequestView::from_value(json_value(*j)),
    {
        match (
            auth_field(j),
            value::string_field(j, "repo_url"),
            value::string_field(j, "commit_sha"),
        ) {
            (Some(auth), Some(repo_url), Some(commit_sha)) => Some(
                CustomBuildRequest { auth, repo_url, commit_sha },
            ),
            _ => None,
        }
    }
}

/// Asks for a build of the crates with one toolchain.
#[derive(Debug, Clone, PartialEq, Eq)]
pub struct CrateBuildRequest {
    pub auth: Auth,
    pub toolchain: String,
}

/// The texts of a request for a crate build.
pub struct CrateBuildRequestView {
    pub auth: AuthView,
    pub toolchain: Seq<char>,
}

impl View for CrateBuildRequest {
    type V = CrateBuildRequestView;

    open spec fn view(&self) -> CrateBuildRequestView {
        CrateBuildRequestView { auth: self.auth@, toolchain: self.toolchain@ }
    }
}

impl CrateBuildRequestView {
    /// `{"auth": .., "toolchain": ..}`
    pub open spec fn to_value(self) -> JsonValue {
        JsonValue::Object(
            Map::empty().insert("auth"@, self.auth.to_value()).insert(
                "toolchain"@,
                JsonValue::String(self.toolchain),
            ),
        )
    }

    /// An object with the field `auth` and a string field `toolchain`;
    /// other fields are passed over.
    pub open spec fn from_value(v: JsonValue) -> Option<CrateBuildRequestView> {
        match (auth_field_of(v), string_field_of(v, "toolchain"@)) {
            (Some(auth), Some(toolchain)) => Some(CrateBuildRequestView { auth, toolchain }),
            _ => None,
        }
    }
}

impl CrateBuildRequest {
    /// This value as JSON.
    pub fn to_json(&self) -> (j: Json)
        ensures
            json_value(j) == self@.to_value(),
    {
        let mut j = value::object();
        value::insert(&mut j, "auth", self.auth.to_json());
        value::insert(&mut j, "toolchain", value::string(&self.toolchain));
        j
    }

    /// Reads a value of this shape from JSON; `None` where the JSON has
    /// another shape.
    pub fn from_json(j: &Json) -> (r: Option<CrateBuildRequest>)
        ensures
            viewed(r) == CrateBuildRequestView::from_value(json_value(*j)),
    {
        match (auth_field(j), value::string_field(j, "toolchain")) {
            (Some(auth), Some(toolchain)) => Some(CrateBuildRequest { auth, toolchain }),
            _ => None,
        }
    }
}

/// Asks for a report.
#[derive(Debug, Clone, PartialEq, Eq)]
pub struct ReportRequest {
    pub auth: Auth,
    pub kind: ReportKind,
}

/// The texts of a request for a report.
pub struct ReportRequestView {
    pub auth: AuthView,
    pub kind: ReportKindView,
}

impl View for ReportRequest {
    type V = ReportRequestView;

    open spec fn view(&self) -> ReportRequestView {
        ReportRequestView { auth: self.auth@, kind: self.kind@ }
    }
}

impl ReportRequestView {
    /// `{"auth": .., "kind": ..}`
    pub open spec fn to_value(self) -> JsonValue {
        JsonValue::Object(
            Map::empty().insert("auth"@, self.auth.to_value()).insert(
                "kind"@,
                self.kind.to_value(),
            ),
        )
    }

    /// An object with the fields `auth` and `kind`; other fields are
    /// passed over.
    pub open spec fn from_value(v: JsonValue) -> Option<ReportRequestView> {
        match (auth_field_of(v), field_of(v, "kind"@)) {
            (Some(auth), Some(k)) => match ReportKindView::from_value(k) {
                Some(kind) => Some(ReportRequestView { auth, kind }),
                None => None,
            },
            _ => None,
        }
    }
}

impl ReportRequest {
    /// This value as JSON.
    pub fn to_json(&self) -> (j: Json)
        ensures
            json_value(j) == self@.to_value(),
    {
        let mut j = value::object();
        value::insert(&mut j, "auth", self.auth.to_json());
        value::insert(&mut j, "kind", self.kind.to_json());
        j
    }

    /// Reads a value of this shape from JSON; `None` where the JSON has
    /// another shape.
    pub fn from_json(j: &Json) -> (r: Option<ReportRequest>)
        ensures
            viewed(r) == ReportRequestView::from_value(json_value(*j)),
    {
        match (auth_field(j), j.find("kind")) {
            (Some(auth), Some(k)) => match ReportKind::from_json(k) {
                Some(kind) => Some(ReportRequest { auth, kind }),
                None => None,
            },
            _ => None,
        }
    }
}

/// Asks the service to test itself.
#[derive(Debug, Clone, PartialEq, Eq)]
pub struct SelfTestRequest {
    pub auth: Auth,
}

/// The texts of a request for a self-test.
pub struct SelfTestRequestView {
    pub auth: AuthView,
}

impl View for SelfTestRequest {
    type V = SelfTestRequestView;

    open spec fn view(&self) -> SelfTestRequestView {
        SelfTestRequestView { auth: self.auth@ }
    }
}

impl SelfTestRequestView {
    /// `{"auth": ..}`
    pub open spec fn to_value(self) -> JsonValue {
        JsonValue::Object(Map::empty().insert("auth"@, self.auth.to_value()))
    }

    /// An object with the field `auth`; other fields are passed over.
    pub open spec fn from_value(v: JsonValue) -> Option<SelfTestRequestView> {
        match auth_field_of(v) {
            Some(auth) => Some(SelfTestRequestView { auth }),
            None => None,
        }
    }
}

impl SelfTestRequest {
    /// This value as JSON.
    pub fn to_json(&self) -> (j: Json)
        ensures
            json_value(j) == self@.to_value(),
    {
        let mut j = value::object();
        value::insert(&mut j, "auth", self.auth.to_json());
        j
    }

    /// Reads a value of this shape from JSON; `None` where the JSON has
    /// another shape.
    pub fn from_json(j: &Json) -> (r: Option<SelfTestRequest>)
        ensures
            viewed(r) == SelfTestRequestView::from_value(json_value(*j)),
    {
        match auth_field(j) {
            Some(auth) => Some(SelfTestRequest { auth }),
            None => None,
        }
    }
}

/// A request for one of the four operations.
#[derive(Debug, Clone, PartialEq, Eq)]
pub enum Request {
    CustomBuild(CustomBuildRequest),
    CrateBuild(CrateBuildRequest),
    Report(ReportRequest),
    SelfTest(SelfTestRequest),
}

/// The texts of a request.
pub enum RequestView {
    CustomBuild(CustomBuildRequestView),
    CrateBuild(CrateBuildRequestView),
    Report(ReportRequestView),
    SelfTest(SelfTestRequestView),
}

impl View for Request {
    type V = RequestView;

    open spec fn view(&self) -> RequestView {
        match self {
            Request::CustomBuild(request) => RequestView::CustomBuild(request@),
            Request::CrateBuild(request) => RequestView::CrateBuild(request@),
            Request::Report(request) => RequestView::Report(request@),
            Request::SelfTest(request) => RequestView::SelfTest(request@),
        }
    }
}

impl RequestView {
    /// The request as its own shape has it.
    pub open spec fn to_value(self) -> JsonValue {
        match self {
            RequestView::CustomBuild(request) => request.to_value(),
            RequestView::CrateBuild(request) => request.to_value(),
            RequestView::Report(request) => request.to_value(),
            RequestView::SelfTest(request) => request.to_value(),
        }
    }

    /// A request on the wire nests three deep at most: the request, the
    /// kind of a report in it, and the fields of that kind.
    pub proof fn nests_three_deep(self)
        ensures
            nested_within(self.to_value(), 3),
    {
        reveal_with_fuel(nested_within, 4);
    }
}

impl Request {
    /// This value as JSON.
    pub fn to_json(&self) -> (j: Json)
        ensures
            json_value(j) == self@.to_value(),
    {
        match self {
            Request::CustomBuild(request) => request.to_json(),
            Request::CrateBuild(request) => request.to_json(),
            Request::Report(request) => request.to_json(),
            Request::SelfTest(request) => request.to_json(),
        }
    }
}

/// How the command that the service ran on the client's behalf ended. A
/// failure here is an answer of the service, not a fault of the exchange.
#[derive(Debug, Clone, PartialEq, Eq)]
pub enum StdIoResponse {
    /// The command succeeded; this is what it wrote to its standard output.
    Success { stdout: String },
    /// The command failed; this is what it wrote to its standard error.
    Failure { stderr: String },
}

/// The texts of a response.
pub enum StdIoResponseView {
    Success { stdout: Seq<char> },
    Failure { stderr: Seq<char> },
}

impl View for StdIoResponse {
    type V = StdIoResponseView;

    open spec fn view(&self) -> StdIoResponseView {
        match self {
            StdIoResponse::Success { stdout } => StdIoResponseView::Success { stdout: stdout@ },
            StdIoResponse::Failure { stderr } => StdIoResponseView::Failure { stderr: stderr@ },
        }
    }
}

/// `{"stdout": .., "stderr": .., "success": ..}`
pub open spec fn stdio_value(stdout: Seq<char>, stderr: Seq<char>, success: bool) -> JsonValue {
    JsonValue::Object(
        Map::empty().insert("stdout"@, JsonValue::String(stdout)).insert(
            "stderr"@,
            JsonValue::String(stderr),
        ).insert("success"@, JsonValue::Boolean(success)),
    )
}

impl StdIoResponseView {
    /// The flag `success` tells the two states apart; the text of the state
    /// stands in its own field and the other text field is empty.
    pub open spec fn to_value(self) -> JsonValue {
        match self {
            StdIoResponseView::Success { stdout } => stdio_value(stdout, Seq::empty(), true),
            StdIoResponseView::Failure { stderr } => stdio_value(Seq::empty(), stderr, false),
        }
    }

    /// An object with string fields `stdout` and `stderr` and a boolean
    /// field `success`. The flag decides the state, and the state keeps the
    /// text that belongs to it.
    pub open spec fn from_value(v: JsonValue) -> Option<StdIoResponseView> {
        match (
            string_field_of(v, "stdout"@),
            string_field_of(v, "stderr"@),
            boolean_field_of(v, "success"@),
        ) {
            (Some(stdout), Some(stderr), Some(success)) => Some(
                if success {
                    StdIoResponseView::Success { stdout }
                } else {
                    StdIoResponseView::Failure { stderr }
                },
            ),
            _ => None,
        }
    }
}

impl StdIoResponse {
    /// This value as JSON.
    pub fn to_json(&self) -> (j: Json)
        ensures
            json_value(j) == self@.to_value(),
    {
        let mut j = value::object();
        match self {
            StdIoResponse::Success { stdout } => {
                value::insert(&mut j, "stdout", value::string(stdout));
                value::insert(&mut j, "stderr", value::string(&String::new()));
                value::insert(&mut j, "success", value::boolean(true));
            },
            StdIoResponse::Failure { stderr } => {
                value::insert(&mut j, "stdout", value::string(&String::new()));
                value::insert(&mut j, "stderr", value::string(stderr));
                value::insert(&mut j, "success", value::boolean(false));
            },
        }
        j
    }

    /// Reads a value of this shape from JSON; `None` where the JSON has
    /// another shape.
    pub fn from_json(j: &Json) -> (r: Option<StdIoResponse>)
        ensures
            viewed(r) == StdIoResponseView::from_value(json_value(*j)),
    {
        match (
            value::string_field(j, "stdout"),
            value::string_field(j, "stderr"),
            value::boolean_field(j, "success"),
        ) {
            (Some(stdout), Some(stderr), Some(success)) => Some(
                if success {
                    StdIoResponse::Success { stdout }
                } else {
                    StdIoResponse::Failure { stderr }
                },
            ),
            _ => None,
        }
    }
}

} // verus!
