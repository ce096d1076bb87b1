//! Error taxonomy of the library.
//!
//! Configuration and usage errors are produced by the verified planning code;
//! delivery errors (`Http`, `NotifyRust`, `Io`) carry the text of a failure
//! reported by a collaborator that performed the actual I/O.

use vstd::prelude::*;
use vstd::string::StringExecFns;

verus! {

/// Everything that can go wrong while planning or delivering a notification.
#[derive(Debug, PartialEq, Eq)]
pub enum Error {
    /// No configuration file was found.
    NoConfig,
    /// No message was given outside streaming mode.
    NoMessage,
    /// A message was given while streaming mode is enabled.
    StreamAndMessage,
    /// An I/O failure, described by its text.
    Io(String),
    /// A configuration file already exists at the given path.
    ConfigConflict { path: String },
    /// The configuration document could not be read, described by its text.
    InvalidConfig(String),
    /// An HTTP delivery failed; the text must not contain the request URL.
    Http(String),
    /// A custom webhook header has an invalid name.
    UnknownHttpHeader(String),
    /// A custom webhook header has an invalid value.
    InvalidHttpHeader(String),
    /// The streaming filter is not a valid regular expression.
    Regex(String),
    /// The desktop notification backend failed, described by its text.
    NotifyRust(String),
}

/// The human-readable text of each error.
pub open spec fn error_message(e: Error) -> Seq<char> {
    match e {
        Error::NoConfig => "No config file found, please create one or provide the path with --config"@,
        Error::NoMessage => "A message must be provided when not streaming notifications"@,
        Error::StreamAndMessage => "A message cannot be provided when using streaming"@,
        Error::Io(text) => "IO: "@ + text@,
        Error::ConfigConflict { path } => "Config file `"@ + path@ + "` already exists"@,
        Error::InvalidConfig(text) => "Invalid config file: "@ + text@,
        Error::Http(text) => "An error occurred when sending a request: "@ + text@,
        Error::UnknownHttpHeader(name) => "Invalid HTTP header name: "@ + name@,
        Error::InvalidHttpHeader(value) => "Invalid HTTP header value: "@ + value@,
        Error::Regex(text) => "Failed to parse regex: "@ + text@,
        Error::NotifyRust(text) => "Failed to send desktop notification: "@ + text@,
    }
}

impl Error {
    /// Render the error for display to the user.
    pub fn message(&self) -> (r: String)
        ensures
            r@ == error_message(*self),
    {
        match self {
            Error::NoConfig => "No config file found, please create one or provide the path with --config".to_owned(),
            Error::NoMessage => "A message must be provided when not streaming notifications".to_owned(),
            Error::StreamAndMessage => "A message cannot be provided when using streaming".to_owned(),
            Error::Io(text) => "IO: ".to_owned().concat(text.as_str()),
            Error::ConfigConflict { path } => "Config file `".to_owned().concat(path.as_str()).concat(
                "` already exists",
            ),
            Error::InvalidConfig(text) => "Invalid config file: ".to_owned().concat(text.as_str()),
            Error::Http(text) => "An error occurred when sending a request: ".to_owned().concat(
                text.as_str(),
            ),
            Error::UnknownHttpHeader(name) => "Invalid HTTP header name: ".to_owned().concat(
                name.as_str(),
            ),
            Error::InvalidHttpHeader(value) => "Invalid HTTP header value: ".to_owned().concat(
                value.as_str(),
            ),
            Error::Regex(text) => "Failed to parse regex: ".to_owned().concat(text.as_str()),
            Error::NotifyRust(text) => "Failed to send desktop notification: ".to_owned().concat(
                text.as_str(),
            ),
        }
    }
}

} // verus!
