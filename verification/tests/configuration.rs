use crater_cli::config::load_config;
use crater_cli::config::Config;
use crater_cli::error::Error;
use crater_cli::error::FaultKind;
use rustc_serialize::json::Json;

const GOOD: &str =
    "{\"server_url\": \"http://localhost:8080\", \"username\": \"alice\", \"auth_token\": \"s3cr3t\"}";

fn decode_fault(r: Result<Config, Error>) -> String {
    match r {
        Err(Error::TransportError(fault, _)) => {
            assert_eq!(fault.kind, FaultKind::Decode);
            fault.message
        }
        other => panic!("expected a transport error, got {:?}", other),
    }
}

#[test]
fn configuration_has_three_fields() {
    let config = load_config(GOOD).unwrap();
    assert_eq!(
        config,
        Config {
            server_url: "http://localhost:8080".to_string(),
            username: "alice".to_string(),
            auth_token: "s3cr3t".to_string(),
        }
    );
}

#[test]
fn configuration_passes_over_other_fields() {
    let text = "{\"server_url\": \"u\", \"username\": \"n\", \"auth_token\": \"t\", \"colour\": 3}";
    let config = load_config(text).unwrap();
    assert_eq!(config.server_url, "u");
    assert_eq!(config.username, "n");
    assert_eq!(config.auth_token, "t");
}

#[test]
fn configuration_without_token_is_rejected() {
    let text = "{\"server_url\": \"u\", \"username\": \"n\"}";
    assert_eq!(decode_fault(load_config(text)), "decoder error");
}

#[test]
fn configuration_without_url_is_rejected() {
    let text = "{\"username\": \"n\", \"auth_token\": \"t\"}";
    assert_eq!(decode_fault(load_config(text)), "decoder error");
}

#[test]
fn configuration_without_username_is_rejected() {
    let text = "{\"server_url\": \"u\", \"auth_token\": \"t\"}";
    assert_eq!(decode_fault(load_config(text)), "decoder error");
}

#[test]
fn configuration_field_of_wrong_type_is_rejected() {
    let text = "{\"server_url\": \"u\", \"username\": 7, \"auth_token\": \"t\"}";
    assert_eq!(decode_fault(load_config(text)), "decoder error");
    let text = "{\"server_url\": null, \"username\": \"n\", \"auth_token\": \"t\"}";
    assert_eq!(decode_fault(load_config(text)), "decoder error");
}

#[test]
fn configuration_that_is_no_object_is_rejected() {
    assert_eq!(decode_fault(load_config("[1, 2, 3]")), "decoder error");
    assert_eq!(decode_fault(load_config("\"server_url\"")), "decoder error");
}

#[test]
fn configuration_that_is_no_json_is_rejected() {
    assert_eq!(decode_fault(load_config("server_url = here")), "decoder error");
    assert_eq!(decode_fault(load_config("")), "decoder error");
    assert_eq!(decode_fault(load_config("{\"server_url\": \"u\"")), "decoder error");
}

#[test]
fn configuration_error_carries_a_trace() {
    let e = load_config("{").unwrap_err();
    assert!(!e.trace().unwrap().frames.is_empty());
}

#[test]
fn configuration_reads_from_a_value() {
    let j = Json::from_str(GOOD).unwrap();
    let config = Config::from_json(&j).unwrap();
    assert_eq!(config.username, "alice");
    assert!(Config::from_json(&Json::Null).is_none());
    assert!(Config::from_json(&Json::from_str("{}").unwrap()).is_none());
}

#[test]
fn configuration_keeps_escaped_text() {
    let text = "{\"server_url\": \"http://h/\\u00e9\", \"username\": \"a\\\"b\", \"auth_token\": \"\"}";
    let config = load_config(text).unwrap();
    assert_eq!(config.server_url, "http://h/\u{e9}");
    assert_eq!(config.username, "a\"b");
    assert_eq!(config.auth_token, "");
}
