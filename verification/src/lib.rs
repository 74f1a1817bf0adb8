//! Kleos: validated domain types, type-state events and the decision logic
//! of an event ingestion and processing pipeline.

pub mod clock;
pub mod foreign;
pub mod json;
pub mod text;
pub mod types;
pub mod pipeline;
pub mod ingest;
pub mod process;
pub mod stream_consumer;
pub mod api_producer;
