//! The business logic applied to each consumed user action.

use vstd::prelude::*;
use crate::ingest::UserAction;
use crate::pipeline::events::{Consumed, Event};
use crate::pipeline::processing::{ProcessingError, ProcessingResult};

verus! {

/// Processes consumed user actions; every kind of action is accepted as it
/// is (the service around this library logs it).
#[derive(Debug, Clone, Copy)]
pub struct UserActionProcessor;

impl UserActionProcessor {
    /// The result of processing `event`: every user action succeeds.
    pub fn process(&self, event: &Event<UserAction, Consumed>) -> (r: Result<
        ProcessingResult,
        ProcessingError,
    >)
        ensures
            r == Ok::<ProcessingResult, ProcessingError>(ProcessingResult::Success),
    {
        match &event.payload.data {
            UserAction::PageView { .. } => {},
            UserAction::Click { .. } => {},
            UserAction::Purchase { .. } => {},
        }
        Ok(ProcessingResult::Success)
    }
}

} // verus!
