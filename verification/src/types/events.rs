//! Domain events for the stream processing pipeline.
//!
//! Each event type holds only the data that belongs to it, and the enums make
//! the combinations that cannot happen unrepresentable.

use vstd::prelude::*;
use crate::clock::{utc_now, UtcTimestamp, NANOS_PER_SECOND};
use crate::types::ids::RequestId;
use crate::types::validated::{String100, String1000};

pub use crate::types::severity::Severity;

verus! {

/// The envelope of every event sent through the stream.
#[derive(Debug, Clone)]
pub struct StreamEvent {
    /// Traces the event through the system.
    pub request_id: RequestId,
    /// When the event was created.
    pub timestamp: UtcTimestamp,
    /// What happened.
    pub payload: EventPayload,
}

impl StreamEvent {
    /// An event for `payload`, stamped with the current time.
    pub fn new(request_id: RequestId, payload: EventPayload) -> (r: Self)
        ensures
            r.request_id == request_id,
            r.payload == payload,
            r.timestamp.subsec_nanos < NANOS_PER_SECOND,
    {
        StreamEvent { request_id, timestamp: utc_now(), payload }
    }
}

/// Every kind of event in the system.
#[derive(Debug, Clone)]
pub enum EventPayload {
    /// A user action occurred.
    UserAction(UserActionEvent),
    /// A system event occurred.
    SystemEvent(SystemEventData),
    /// Data was processed.
    DataProcessed(DataProcessedEvent),
}

/// An action that a user took.
#[derive(Debug, Clone)]
pub struct UserActionEvent {
    pub user_id: String100,
    pub action_type: ActionType,
    pub details: String1000,
}

/// The kinds of user action.
#[derive(Debug, Clone, Copy, PartialEq, Eq, Structural)]
pub enum ActionType {
    Create,
    Update,
    Delete,
    View,
}

/// An event that the system raised.
#[derive(Debug, Clone)]
pub struct SystemEventData {
    pub source: String100,
    pub severity: Severity,
    pub message: String1000,
}

/// The outcome of a processing job.
#[derive(Debug, Clone)]
pub struct DataProcessedEvent {
    pub original_request_id: RequestId,
    pub result: ProcessingResult,
}

/// How a processing job ended: it either succeeded or failed, never both.
#[derive(Debug, Clone)]
pub enum ProcessingResult {
    Success { records_processed: u32, duration_ms: u64 },
    Failed { error_message: String1000, retry_count: u8 },
}

impl ProcessingResult {
    /// Whether the job succeeded.
    pub fn is_success(&self) -> (r: bool)
        ensures
            r <==> self is Success,
    {
        matches!(self, ProcessingResult::Success { .. })
    }

    /// Whether the job failed.
    pub fn is_failed(&self) -> (r: bool)
        ensures
            r <==> self is Failed,
    {
        matches!(self, ProcessingResult::Failed { .. })
    }
}

/// A processing result is a success or a failure, and never both.
pub proof fn law_result_is_success_or_failure(result: ProcessingResult)
    ensures
        (result is Success) != (result is Failed),
{
}

} // verus!
