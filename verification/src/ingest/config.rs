//! The configuration of the ingest service, read once when it starts, so
//! that a bad configuration stops it before it serves anything.

use vstd::prelude::*;
use vstd::string::*;
use crate::text::prefixed;

verus! {

/// The environment variable that names the stream.
pub const STREAM_NAME_VAR: &'static str = "KINESIS_STREAM_NAME";

/// The stream name used when the environment names none.
pub const DEFAULT_STREAM_NAME: &'static str = "kleos-stream";

/// The configuration of the ingest service.
#[derive(Debug, Clone)]
pub struct Config {
    /// The stream that events are published to.
    pub stream_name: String,
}

/// Why the configuration could not be loaded.
#[derive(Debug, Clone, PartialEq, Eq)]
pub enum ConfigError {
    MissingEnvVar(String),
    InvalidValue { key: String, reason: String },
}

impl ConfigError {
    /// The text that describes the error.
    pub open spec fn message(&self) -> Seq<char> {
        match self {
            ConfigError::MissingEnvVar(name) => "Missing environment variable: "@ + name@,
            ConfigError::InvalidValue { key, reason } => "Invalid configuration value for "@
                + key@ + ": "@ + reason@,
        }
    }

    /// Describes the error.
    pub fn to_string(&self) -> (r: String)
        ensures
            r@ == self.message(),
    {
        match self {
            ConfigError::MissingEnvVar(name) => prefixed(
                "Missing environment variable: ",
                name.as_str(),
            ),
            ConfigError::InvalidValue { key, reason } => {
                let mut r = prefixed("Invalid configuration value for ", key.as_str());
                r.append(": ");
                r.append(reason.as_str());
                r
            },
        }
    }
}

impl Config {
    /// The configuration for the value of `KINESIS_STREAM_NAME` as the
    /// environment gives it (`None` where it is unset or not Unicode): the
    /// stream name defaults to `kleos-stream`, and an empty name is refused.
    pub fn from_env(stream_name_var: Option<String>) -> (r: Result<Self, ConfigError>)
        ensures
            match stream_name_var {
                None => r matches Ok(config) && config.stream_name@ == DEFAULT_STREAM_NAME@,
                Some(name) => if name@.len() == 0 {
                    r matches Err(ConfigError::InvalidValue { key, reason }) && key@
                        == STREAM_NAME_VAR@ && reason@ == "stream name cannot be empty"@
                } else {
                    r matches Ok(config) && config.stream_name@ == name@
                },
            },
    {
        let stream_name = match stream_name_var {
            Some(name) => name,
            None => String::from_str(DEFAULT_STREAM_NAME),
        };
        proof {
            reveal_strlit("kleos-stream");
        }
        if stream_name.as_str().is_empty() {
            return Err(
                ConfigError::InvalidValue {
                    key: String::from_str(STREAM_NAME_VAR),
                    reason: String::from_str("stream name cannot be empty"),
                },
            );
        }
        Ok(Config { stream_name })
    }
}

} // verus!
