//! Client side of the crater build-and-report service: command parsing,
//! request construction, response classification and outcome reporting.
//!
//! An invocation has two halves with one HTTP exchange between them.
//! [`run::run`] takes the text of the configuration file and the command
//! line and gives the POST to make; [`run::conclude`] takes the body of the
//! answer, or the error that stood in its way, and gives what to write to
//! the operator. The exchange itself is left to the caller.

pub mod api;
pub mod client_v1;
pub mod config;
pub mod error;
pub mod laws;
pub mod limits;
pub mod opts;
pub mod run;
pub mod text;
pub mod value;

pub use crate::client_v1::Ctxt;
pub use crate::client_v1::Post;
pub use crate::config::Config;
pub use crate::error::Error;
pub use crate::opts::Opts;
pub use crate::run::Output;
