//! Processing events. Processors implement the `Processor` trait (in the
//! service around this library); what they report is one of these.

use vstd::prelude::*;
use crate::json::{
    json_string, json_string_literal, newtype_variant, newtype_variant_json, unit_variant,
    unit_variant_json,
};
use crate::text::prefixed;

verus! {

/// Why an event could not be processed.
#[derive(Debug, Clone, PartialEq, Eq)]
pub enum ProcessingError {
    ExecutionError(String),
    TransientError(String),
}

impl ProcessingError {
    /// The text that describes the error.
    pub open spec fn message(&self) -> Seq<char> {
        match self {
            ProcessingError::ExecutionError(detail) => "Processing failed: "@ + detail@,
            ProcessingError::TransientError(detail) => "Transient error, retriable: "@ + detail@,
        }
    }

    /// Describes the error.
    pub fn to_string(&self) -> (r: String)
        ensures
            r@ == self.message(),
    {
        match self {
            ProcessingError::ExecutionError(detail) => prefixed("Processing failed: ", detail.as_str()),
            ProcessingError::TransientError(detail) => prefixed(
                "Transient error, retriable: ",
                detail.as_str(),
            ),
        }
    }
}

/// How the processing of an event ended.
#[derive(Debug, Clone, PartialEq, Eq)]
pub enum ProcessingResult {
    Success,
    Failure(String),
    Skipped(String),
}

impl ProcessingResult {
    /// The JSON text of the result: `"Success"`, or `{"Failure":<reason>}`
    /// or `{"Skipped":<reason>}` with the reason as a JSON string.
    pub open spec fn json(&self) -> Seq<char> {
        match self {
            ProcessingResult::Success => unit_variant_json("Success"@),
            ProcessingResult::Failure(reason) => newtype_variant_json(
                "Failure"@,
                json_string_literal(reason@),
            ),
            ProcessingResult::Skipped(reason) => newtype_variant_json(
                "Skipped"@,
                json_string_literal(reason@),
            ),
        }
    }

    /// The JSON text of the result, as serde writes the enum.
    pub fn to_json(&self) -> (r: String)
        ensures
            r@ == self.json(),
    {
        match self {
            ProcessingResult::Success => unit_variant("Success"),
            ProcessingResult::Failure(reason) => newtype_variant(
                "Failure",
                json_string(reason.as_str()).as_str(),
            ),
            ProcessingResult::Skipped(reason) => newtype_variant(
                "Skipped",
                json_string(reason.as_str()).as_str(),
            ),
        }
    }
}

} // verus!
