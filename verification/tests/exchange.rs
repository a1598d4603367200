use crater_cli::api::Auth;
use crater_cli::api::CrateBuildRequest;
use crater_cli::api::CustomBuildRequest;
use crater_cli::api::ReportKind;
use crater_cli::api::ReportRequest;
use crater_cli::api::Request;
use crater_cli::api::SelfTestRequest;
use crater_cli::api::StdIoResponse;
use crater_cli::client_v1::api_url;
use crater_cli::client_v1::classify;
use crater_cli::client_v1::post_for;
use crater_cli::client_v1::stdio_req;
use crater_cli::client_v1::stdio_res;
use crater_cli::client_v1::Ctxt;
use crater_cli::client_v1::Post;
use crater_cli::config::Config;
use crater_cli::error::Error;
use crater_cli::error::FaultKind;
use rustc_serialize::json::EncoderError;
use rustc_serialize::json::Json;

fn config() -> Config {
    Config {
        server_url: "http://crater.example:8080".to_string(),
        username: "alice".to_string(),
        auth_token: "s3cr3t".to_string(),
    }
}

fn body_of(post: &Post) -> Json {
    Json::from_str(&post.body).unwrap()
}

fn keys(j: &Json) -> Vec<String> {
    j.as_object().unwrap().keys().cloned().collect()
}

fn auth_json() -> Json {
    Json::from_str("{\"name\": \"alice\", \"token\": \"s3cr3t\"}").unwrap()
}

#[test]
fn endpoint_is_server_then_path_then_name() {
    assert_eq!(api_url(&config(), "custom_build"), "http://crater.example:8080/api/v1/custom_build");
    assert_eq!(api_url(&config(), "self-test"), "http://crater.example:8080/api/v1/self-test");
    let bare = Config { server_url: String::new(), username: String::new(), auth_token: String::new() };
    assert_eq!(api_url(&bare, ""), "/api/v1/");
}

#[test]
fn client_derives_auth_from_its_configuration() {
    let ctxt = Ctxt::new(config());
    assert_eq!(ctxt.auth(), Auth { name: "alice".to_string(), token: "s3cr3t".to_string() });
}

#[test]
fn custom_build_posts_to_custom_build() {
    let post = Ctxt::new(config())
        .custom_build("https://example.org/r.git".to_string(), "abc123".to_string())
        .unwrap();
    assert_eq!(post.url, "http://crater.example:8080/api/v1/custom_build");
    assert_eq!(
        post.body,
        "{\"auth\":{\"name\":\"alice\",\"token\":\"s3cr3t\"},\"commit_sha\":\"abc123\",\"repo_url\":\"https://example.org/r.git\"}"
    );
}

#[test]
fn custom_build_body_has_auth_and_its_own_fields() {
    let post = Ctxt::new(config()).custom_build("r".to_string(), "c".to_string()).unwrap();
    let body = body_of(&post);
    assert_eq!(keys(&body), vec!["auth".to_string(), "commit_sha".to_string(), "repo_url".to_string()]);
    assert_eq!(body.find("auth"), Some(&auth_json()));
    assert_eq!(body.find("repo_url"), Some(&Json::String("r".to_string())));
    assert_eq!(body.find("commit_sha"), Some(&Json::String("c".to_string())));
}

#[test]
fn crate_build_posts_to_crate_build() {
    let post = Ctxt::new(config()).crate_build("nightly".to_string()).unwrap();
    assert_eq!(post.url, "http://crater.example:8080/api/v1/crate_build");
    let body = body_of(&post);
    assert_eq!(keys(&body), vec!["auth".to_string(), "toolchain".to_string()]);
    assert_eq!(body.find("auth"), Some(&auth_json()));
    assert_eq!(body.find("toolchain"), Some(&Json::String("nightly".to_string())));
}

#[test]
fn report_posts_to_report() {
    let kind = ReportKind::Comparison { toolchain_from: "A".to_string(), toolchain_to: "B".to_string() };
    let post = Ctxt::new(config()).report(kind.clone()).unwrap();
    assert_eq!(post.url, "http://crater.example:8080/api/v1/report");
    let body = body_of(&post);
    assert_eq!(keys(&body), vec!["auth".to_string(), "kind".to_string()]);
    assert_eq!(body.find("auth"), Some(&auth_json()));
    assert_eq!(ReportKind::from_json(body.find("kind").unwrap()), Some(kind));
}

#[test]
fn report_of_one_toolchain_posts_its_kind() {
    let post = Ctxt::new(config()).report(ReportKind::Toolchain("X".to_string())).unwrap();
    assert_eq!(
        post.body,
        "{\"auth\":{\"name\":\"alice\",\"token\":\"s3cr3t\"},\"kind\":{\"fields\":[\"X\"],\"variant\":\"Toolchain\"}}"
    );
}

#[test]
fn self_test_posts_to_self_test_with_a_hyphen() {
    let post = Ctxt::new(config()).self_test().unwrap();
    assert_eq!(post.url, "http://crater.example:8080/api/v1/self-test");
    assert_eq!(post.body, "{\"auth\":{\"name\":\"alice\",\"token\":\"s3cr3t\"}}");
}

#[test]
fn auth_follows_the_configuration_in_effect() {
    let other = Config {
        server_url: "https://other".to_string(),
        username: "bob".to_string(),
        auth_token: "t0k3n".to_string(),
    };
    let post = Ctxt::new(other).self_test().unwrap();
    assert_eq!(post.url, "https://other/api/v1/self-test");
    assert_eq!(post.body, "{\"auth\":{\"name\":\"bob\",\"token\":\"t0k3n\"}}");
}

#[test]
fn request_text_escapes_what_json_must() {
    let post = Ctxt::new(config()).crate_build("a\"b\\c\nd".to_string()).unwrap();
    assert_eq!(
        post.body,
        "{\"auth\":{\"name\":\"alice\",\"token\":\"s3cr3t\"},\"toolchain\":\"a\\\"b\\\\c\\nd\"}"
    );
    assert_eq!(body_of(&post).find("toolchain"), Some(&Json::String("a\"b\\c\nd".to_string())));
}

#[test]
fn any_request_can_be_posted_to_any_operation() {
    let auth = Auth { name: "n".to_string(), token: "t".to_string() };
    let req = Request::CrateBuild(CrateBuildRequest { auth: auth.clone(), toolchain: "x".to_string() });
    let post = stdio_req(&config(), "op", &req).unwrap();
    assert_eq!(post.url, "http://crater.example:8080/api/v1/op");
    assert_eq!(post.body, "{\"auth\":{\"name\":\"n\",\"token\":\"t\"},\"toolchain\":\"x\"}");
    let req = Request::SelfTest(SelfTestRequest { auth });
    let post = stdio_req(&config(), "", &req).unwrap();
    assert_eq!(post.url, "http://crater.example:8080/api/v1/");
    assert_eq!(post.body, "{\"auth\":{\"name\":\"n\",\"token\":\"t\"}}");
}

#[test]
fn request_is_written_as_its_own_shape() {
    let auth = Auth { name: "n".to_string(), token: "t".to_string() };
    let custom = CustomBuildRequest { auth: auth.clone(), repo_url: "r".to_string(), commit_sha: "c".to_string() };
    assert_eq!(Request::CustomBuild(custom.clone()).to_json(), custom.to_json());
    let report = ReportRequest { auth, kind: ReportKind::Toolchain("t".to_string()) };
    assert_eq!(Request::Report(report.clone()).to_json(), report.to_json());
}

#[test]
fn post_takes_the_printed_request_as_its_body() {
    let post = post_for(&config(), "report", Ok("{}".to_string())).unwrap();
    assert_eq!(post, Post { url: "http://crater.example:8080/api/v1/report".to_string(), body: "{}".to_string() });
}

#[test]
fn request_that_cannot_be_printed_is_a_transport_error() {
    let e = post_for(&config(), "report", Err(EncoderError::BadHashmapKey)).unwrap_err();
    match e {
        Error::TransportError(fault, trace) => {
            assert_eq!(fault.kind, FaultKind::Encode);
            assert_eq!(fault.message, "encoder error");
            assert!(!trace.frames.is_empty());
        }
        other => panic!("expected a transport error, got {:?}", other),
    }
}

#[test]
fn success_gives_standard_output() {
    let r = classify(StdIoResponse::Success { stdout: "ok\n".to_string() });
    assert_eq!(r.unwrap(), "ok\n");
}

#[test]
fn failure_gives_remote_process_failure() {
    let r = classify(StdIoResponse::Failure { stderr: "boom".to_string() });
    match r {
        Err(Error::RemoteProcessFailure(stderr, trace)) => {
            assert_eq!(stderr, "boom");
            assert!(!trace.frames.is_empty());
        }
        other => panic!("expected a remote failure, got {:?}", other),
    }
}

#[test]
fn answer_with_success_is_read() {
    let r = stdio_res("{\"stdout\": \"ok\\n\", \"stderr\": \"\", \"success\": true}");
    assert_eq!(r.unwrap(), "ok\n");
}

#[test]
fn answer_with_failure_is_read() {
    let r = stdio_res("{\"stdout\": \"partial\", \"stderr\": \"boom\", \"success\": false}");
    assert!(matches!(r, Err(Error::RemoteProcessFailure(ref s, _)) if s == "boom"));
}

#[test]
fn answer_that_is_no_json_is_a_transport_error() {
    let r = stdio_res("<html>502 Bad Gateway</html>");
    match r {
        Err(Error::TransportError(fault, _)) => {
            assert_eq!(fault.kind, FaultKind::Decode);
            assert_eq!(fault.message, "decoder error");
        }
        other => panic!("expected a transport error, got {:?}", other),
    }
}

#[test]
fn answer_of_other_shape_is_a_transport_error() {
    for body in ["{}", "{\"stdout\": \"x\"}", "[true]", "{\"success\": true}", "7"] {
        match stdio_res(body) {
            Err(Error::TransportError(fault, _)) => {
                assert_eq!(fault.kind, FaultKind::Decode);
                assert_eq!(fault.message, "decoder error");
            }
            other => panic!("expected a transport error for {}, got {:?}", body, other),
        }
    }
}

#[test]
fn empty_answer_is_a_transport_error() {
    assert!(matches!(stdio_res(""), Err(Error::TransportError(_, _))));
}
