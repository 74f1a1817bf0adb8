//! The processing service's records: data read from the stream together
//! with the stream's metadata about it.

pub mod config;
pub mod consumer;
pub mod handler;
pub mod processor;

use vstd::prelude::*;
use vstd::string::*;

verus! {

/// Why a stream record could not be made ready for processing.
#[derive(Debug)]
pub enum ProcessingError {
    /// The record's data was not valid JSON for the expected type.
    Deserialization(serde_json::Error),
    /// The record lacked some metadata.
    MissingMetadata(String),
}

/// What the stream says about a record, for logging and monitoring.
#[derive(Debug, Clone, PartialEq, Eq)]
pub struct RecordMetadata {
    /// The stream's sequence number, for ordering and checkpointing.
    pub sequence_number: String,
    /// The key that placed the record on its shard.
    pub partition_key: String,
    /// About when the record reached the stream, in milliseconds since the
    /// epoch.
    pub approximate_arrival_timestamp: Option<i64>,
}

/// A record's data, parsed, and the stream's metadata about it.
#[derive(Debug, Clone)]
pub struct ProcessableRecord<T> {
    pub data: T,
    pub metadata: RecordMetadata,
}

/// The text given, or `unknown` where none was given.
pub open spec fn or_unknown(text: Option<String>) -> Seq<char> {
    match text {
        Some(t) => t@,
        None => "unknown"@,
    }
}

/// The text given, or `unknown` where none was given.
pub fn text_or_unknown(text: Option<String>) -> (r: String)
    ensures
        r@ == or_unknown(text),
{
    match text {
        Some(t) => t,
        None => String::from_str("unknown"),
    }
}

impl<T> ProcessableRecord<T> {
    /// The record made of the parse of its data and the stream's metadata:
    /// a failed parse is a `Deserialization` error; a missing sequence number
    /// or partition key reads `unknown`.
    pub fn from_kinesis(
        data: Result<T, serde_json::Error>,
        sequence_number: Option<String>,
        partition_key: Option<String>,
        arrival_millis: i64,
    ) -> (r: Result<Self, ProcessingError>)
        ensures
            match data {
                Ok(d) => r matches Ok(record) && record.data == d
                    && record.metadata.sequence_number@ == or_unknown(sequence_number)
                    && record.metadata.partition_key@ == or_unknown(partition_key)
                    && record.metadata.approximate_arrival_timestamp == Some(arrival_millis),
                Err(e) => r matches Err(ProcessingError::Deserialization(f)) && f == e,
            },
    {
        let data = match data {
            Ok(d) => d,
            Err(e) => return Err(ProcessingError::Deserialization(e)),
        };
        let metadata = RecordMetadata {
            sequence_number: text_or_unknown(sequence_number),
            partition_key: text_or_unknown(partition_key),
            approximate_arrival_timestamp: Some(arrival_millis),
        };
        Ok(ProcessableRecord { data, metadata })
    }
}

} // verus!
