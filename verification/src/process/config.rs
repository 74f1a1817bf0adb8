//! The configuration of the processing service, read once when it starts.

use vstd::prelude::*;
use vstd::string::*;
use crate::text::prefixed;

verus! {

/// The configuration of the processing service; it needs nothing yet.
#[derive(Debug, Clone)]
pub struct Config {}

/// Why the configuration could not be loaded.
#[derive(Debug, Clone, PartialEq, Eq)]
pub enum ConfigError {
    MissingEnvVar(String),
    InvalidValue { key: String, reason: String },
}

impl ConfigError {
    /// The text that describes the error.
    pub open spec fn message(&self) -> Seq<char> {
        match self {
            ConfigError::MissingEnvVar(name) => "Missing environment variable: "@ + name@,
            ConfigError::InvalidValue { key, reason } => "Invalid configuration value for "@
                + key@ + ": "@ + reason@,
        }
    }

    /// Describes the error.
    pub fn to_string(&self) -> (r: String)
        ensures
            r@ == self.message(),
    {
        match self {
            ConfigError::MissingEnvVar(name) => prefixed(
                "Missing environment variable: ",
                name.as_str(),
            ),
            ConfigError::InvalidValue { key, reason } => {
                let mut r = prefixed("Invalid configuration value for ", key.as_str());
                r.append(": ");
                r.append(reason.as_str());
                r
            },
        }
    }
}

impl Config {
    /// The configuration; as nothing is required, loading it always succeeds.
    pub fn from_env() -> (r: Result<Self, ConfigError>)
        ensures
            r is Ok,
    {
        Ok(Config {})
    }
}

impl Default for Config {
    fn default() -> (r: Self) {
        Config {}
    }
}

} // verus!
