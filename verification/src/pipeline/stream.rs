//! Publishing events to a stream and consuming them from it. Publishers and
//! consumers implement the `StreamPublisher` and `StreamConsumer` traits (in
//! the service around this library); the error they report is this one.

use vstd::prelude::*;
use crate::text::prefixed;

verus! {

/// Why a stream operation failed.
#[derive(Debug, Clone, PartialEq, Eq)]
pub enum StreamError {
    PublishError(String),
    ConsumeError(String),
    ConnectionError(String),
}

impl StreamError {
    /// The text that describes the error.
    pub open spec fn message(&self) -> Seq<char> {
        match self {
            StreamError::PublishError(detail) => "Failed to publish to stream: "@ + detail@,
            StreamError::ConsumeError(detail) => "Failed to consume from stream: "@ + detail@,
            StreamError::ConnectionError(detail) => "Connection error: "@ + detail@,
        }
    }

    /// Describes the error.
    pub fn to_string(&self) -> (r: String)
        ensures
            r@ == self.message(),
    {
        match self {
            StreamError::PublishError(detail) => prefixed(
                "Failed to publish to stream: ",
                detail.as_str(),
            ),
            StreamError::ConsumeError(detail) => prefixed(
                "Failed to consume from stream: ",
                detail.as_str(),
            ),
            StreamError::ConnectionError(detail) => prefixed("Connection error: ", detail.as_str()),
        }
    }
}

} // verus!
