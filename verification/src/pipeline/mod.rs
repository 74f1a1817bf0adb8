//! The event pipeline: events that carry their lifecycle state in their
//! type, and the errors and results of ingestion, streaming and processing.

pub mod metadata;
pub mod events;
pub mod ingestion;
pub mod processing;
pub mod stream;
