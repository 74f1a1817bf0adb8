//! Turning received data into events. Receivers implement the `Ingestor`
//! trait (in the service around this library); the error they report is
//! this one.

use vstd::prelude::*;
use crate::text::prefixed;

verus! {

/// Why data could not be ingested.
#[derive(Debug, Clone, PartialEq, Eq)]
pub enum IngestError {
    ParseError(String),
    SystemError(String),
}

impl IngestError {
    /// The text that describes the error.
    pub open spec fn message(&self) -> Seq<char> {
        match self {
            IngestError::ParseError(detail) => "Failed to parse payload: "@ + detail@,
            IngestError::SystemError(detail) => "Ingestion failed: "@ + detail@,
        }
    }

    /// Describes the error.
    pub fn to_string(&self) -> (r: String)
        ensures
            r@ == self.message(),
    {
        match self {
            IngestError::ParseError(detail) => prefixed("Failed to parse payload: ", detail.as_str()),
            IngestError::SystemError(detail) => prefixed("Ingestion failed: ", detail.as_str()),
        }
    }
}

} // verus!
