//! Where the service is and who asks.

use crate::error::decode;
use crate::error::decoder_message;
use crate::error::decode_error;
use crate::error::Error;
use crate::error::FaultKind;
use crate::text::viewed;
use crate::value::parsed;
use crate::value::json_value;
use crate::value::string_field;
use crate::value::string_field_of;
use crate::value::JsonValue;
use rustc_serialize::json::Json;
use vstd::prelude::*;

verus! {

/// The settings of one invocation. They are read once and never change.
#[derive(Debug, Clone, PartialEq, Eq)]
pub struct Config {
    pub server_url: String,
    pub username: String,
    pub auth_token: String,
}

/// The texts of a configuration.
pub struct ConfigView {
    pub server_url: Seq<char>,
    pub username: Seq<char>,
    pub auth_token: Seq<char>,
}

impl View for Config {
    type V = ConfigView;

    open spec fn view(&self) -> ConfigView {
        ConfigView {
            server_url: self.server_url@,
            username: self.username@,
            auth_token: self.auth_token@,
        }
    }
}

impl ConfigView {
    /// An object with the three string fields `server_url`, `username` and
    /// `auth_token`; other fields are passed over.
    pub open spec fn from_value(v: JsonValue) -> Option<ConfigView> {
        match (
            string_field_of(v, "server_url"@),
            string_field_of(v, "username"@),
            string_field_of(v, "auth_token"@),
        ) {
            (Some(server_url), Some(username), Some(auth_token)) => Some(
                ConfigView { server_url, username, auth_token },
            ),
            _ => None,
        }
    }

    /// What the text of a configuration file stands for: it must be within
    /// the parser's limits, be JSON, and have the shape above.
    pub open spec fn from_text(text: Seq<char>) -> Option<ConfigView> {
        match parsed(text) {
            Some(v) => ConfigView::from_value(v),
            None => None,
        }
    }
}

impl Config {
    /// Reads a configuration from JSON; `None` where the JSON has another
    /// shape.
    pub fn from_json(j: &Json) -> (r: Option<Config>)
        ensures
            viewed(r) == ConfigView::from_value(json_value(*j)),
    {
        match (
            string_field(j, "server_url"),
            string_field(j, "username"),
            string_field(j, "auth_token"),
        ) {
            (Some(server_url), Some(username), Some(auth_token)) => Some(
                Config { server_url, username, auth_token },
            ),
            _ => None,
        }
    }
}

/// Reads the configuration from the text of its file. Text outside the
/// parser's limits, text that is not JSON, and JSON without the three
/// string fields, is a transport error of kind `Decode`.
pub fn load_config(text: &str) -> (r: Result<Config, Error>)
    ensures
        match r {
            Ok(config) => ConfigView::from_text(text@) == Some(config@),
            Err(e) => ConfigView::from_text(text@) is None && e.is_transport(
                FaultKind::Decode,
                decoder_message(),
            ),
        },
{
    match decode(text) {
        Ok(j) => match Config::from_json(&j) {
            Some(config) => Ok(config),
            None => Err(decode_error()),
        },
        Err(e) => Err(e),
    }
}

} // verus!
