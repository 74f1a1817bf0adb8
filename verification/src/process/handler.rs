//! How the processing service accounts for a batch: which events it
//! acknowledges, and how many it counts as processed and as failed.

use vstd::prelude::*;
use crate::pipeline::processing::{ProcessingError, ProcessingResult};
use crate::pipeline::stream::StreamError;
use crate::text::prefixed;

verus! {

/// Whether an event whose processing ended with `outcome` is acknowledged to
/// the stream: only one that succeeded.
pub open spec fn is_acknowledged(outcome: Result<ProcessingResult, ProcessingError>) -> bool {
    outcome matches Ok(ProcessingResult::Success)
}

/// Whether an event whose processing ended with `outcome` counts as
/// processed: one that succeeded or was skipped. Every other counts as failed.
pub open spec fn counts_as_processed(outcome: Result<ProcessingResult, ProcessingError>) -> bool {
    outcome matches Ok(ProcessingResult::Success) || outcome matches Ok(
        ProcessingResult::Skipped(_),
    )
}

/// How many of `outcomes` count as processed, and how many as failed.
pub open spec fn tally_of(outcomes: Seq<Result<ProcessingResult, ProcessingError>>) -> (nat, nat)
    decreases outcomes.len(),
{
    if outcomes.len() == 0 {
        (0, 0)
    } else {
        let (processed, failed) = tally_of(outcomes.drop_last());
        if counts_as_processed(outcomes.last()) {
            (processed + 1, failed)
        } else {
            (processed, failed + 1)
        }
    }
}

/// The counts of a batch so far.
#[derive(Debug, Clone, Copy, PartialEq, Eq)]
pub struct BatchTally {
    pub processed: u64,
    pub failed: u64,
}

impl BatchTally {
    /// Nothing counted yet.
    pub fn new() -> (r: Self)
        ensures
            r.processed == 0,
            r.failed == 0,
    {
        BatchTally { processed: 0, failed: 0 }
    }

    /// Whether the event whose processing ended with `outcome` is to be
    /// acknowledged (before it is counted).
    pub fn acknowledges(outcome: &Result<ProcessingResult, ProcessingError>) -> (r: bool)
        ensures
            r == is_acknowledged(*outcome),
    {
        matches!(outcome, Ok(ProcessingResult::Success))
    }

    /// Counts one more event, whose processing ended with `outcome`.
    pub fn record(&mut self, outcome: &Result<ProcessingResult, ProcessingError>)
        requires
            old(self).processed < u64::MAX,
            old(self).failed < u64::MAX,
        ensures
            counts_as_processed(*outcome) ==> final(self).processed == old(self).processed + 1
                && final(self).failed == old(self).failed,
            !counts_as_processed(*outcome) ==> final(self).processed == old(self).processed
                && final(self).failed == old(self).failed + 1,
            *outcome is Err ==> final(self).processed == old(self).processed
                && final(self).failed == old(self).failed + 1,
            *outcome is Ok && outcome->Ok_0 is Failure ==> final(self).processed
                == old(self).processed && final(self).failed == old(self).failed + 1,
            *outcome is Ok && !(outcome->Ok_0 is Failure) ==> final(self).processed
                == old(self).processed + 1 && final(self).failed == old(self).failed,
    {
        match outcome {
            Ok(ProcessingResult::Success) | Ok(ProcessingResult::Skipped(_)) => {
                self.processed = self.processed + 1;
            },
            Ok(ProcessingResult::Failure(_)) | Err(_) => {
                self.failed = self.failed + 1;
            },
        }
    }
}

/// What the processing service learned from its last step on a batch.
#[derive(Debug)]
pub enum BatchEvent {
    /// The batch was loaded into the consumer, or not.
    Loaded(Result<(), StreamError>),
    /// The consumer was asked for the next event: `true` when it gave one.
    Consumed(Result<bool, StreamError>),
    /// The event just taken was processed, with this outcome.
    Processed(Result<ProcessingResult, ProcessingError>),
    /// The event just processed was acknowledged, or not.
    Acknowledged(Result<(), StreamError>),
}

/// What the processing service does next.
#[derive(Debug, Clone, PartialEq, Eq)]
pub enum BatchAction {
    /// Take the next event from the consumer.
    Consume,
    /// Process the event just taken.
    Process,
    /// Acknowledge the event just processed.
    Acknowledge,
    /// The batch is done; answer with these counts.
    Finish { processed: u64, failed: u64 },
    /// Stop, answering with this error.
    Fail(String),
}

/// A line for the log: to standard error, or to standard output.
#[derive(Debug, Clone, PartialEq, Eq)]
pub struct LogLine {
    pub to_stderr: bool,
    pub text: String,
}

/// The next step of the processing of a batch, after `event`: a failed
/// load, consume or acknowledgement stops the batch with an error; an empty
/// consumer ends it with the counts; a taken event is processed; a success
/// is acknowledged and then counted as processed; a failure, a skip or an
/// error is logged and counted at once. Then the next event is taken.
pub fn advance(tally: &mut BatchTally, event: &BatchEvent) -> (r: (BatchAction, Option<LogLine>))
    requires
        old(tally).processed < u64::MAX,
        old(tally).failed < u64::MAX,
    ensures
        match *event {
            BatchEvent::Loaded(Ok(())) => {
                &&& r == (BatchAction::Consume, None::<LogLine>)
                &&& *final(tally) == *old(tally)
            },
            BatchEvent::Loaded(Err(e)) => {
                &&& r.0 is Fail
                &&& r.0->Fail_0@ == "Failed to load batch: "@ + e.message()
                &&& r.1 is None
                &&& *final(tally) == *old(tally)
            },
            BatchEvent::Consumed(Ok(true)) => {
                &&& r == (BatchAction::Process, None::<LogLine>)
                &&& *final(tally) == *old(tally)
            },
            BatchEvent::Consumed(Ok(false)) => {
                &&& r.0 == (BatchAction::Finish { processed: old(tally).processed, failed: old(tally).failed })
                &&& r.1 is None
                &&& *final(tally) == *old(tally)
            },
            BatchEvent::Consumed(Err(e)) => {
                &&& r.0 is Fail
                &&& r.0->Fail_0@ == "Consume error: "@ + e.message()
                &&& r.1 is None
                &&& *final(tally) == *old(tally)
            },
            BatchEvent::Processed(outcome) => {
                &&& is_acknowledged(outcome) ==> {
                    &&& r == (BatchAction::Acknowledge, None::<LogLine>)
                    &&& *final(tally) == *old(tally)
                }
                &&& !is_acknowledged(outcome) ==> {
                    &&& r.0 == BatchAction::Consume
                    &&& counts_as_processed(outcome) ==> final(tally).processed == old(tally).processed + 1
                        && final(tally).failed == old(tally).failed
                    &&& !counts_as_processed(outcome) ==> final(tally).processed == old(tally).processed
                        && final(tally).failed == old(tally).failed + 1
                    &&& outcome is Err ==> final(tally).processed == old(tally).processed
                        && final(tally).failed == old(tally).failed + 1
                    &&& outcome is Ok && outcome->Ok_0 is Failure ==> final(tally).processed
                        == old(tally).processed && final(tally).failed == old(tally).failed + 1
                    &&& outcome is Ok && outcome->Ok_0 is Skipped ==> final(tally).processed
                        == old(tally).processed + 1 && final(tally).failed == old(tally).failed
                }
                &&& outcome is Ok && outcome->Ok_0 is Failure ==> {
                    &&& r.1 is Some
                    &&& r.1->Some_0.to_stderr
                    &&& r.1->Some_0.text@ == "Processing failed: "@ + outcome->Ok_0->Failure_0@
                }
                &&& outcome is Ok && outcome->Ok_0 is Skipped ==> {
                    &&& r.1 is Some
                    &&& !r.1->Some_0.to_stderr
                    &&& r.1->Some_0.text@ == "Skipped: "@ + outcome->Ok_0->Skipped_0@
                }
                &&& outcome is Err ==> {
                    &&& r.1 is Some
                    &&& r.1->Some_0.to_stderr
                    &&& r.1->Some_0.text@ == "Processing error: "@ + outcome->Err_0.message()
                }
            },
            BatchEvent::Acknowledged(Ok(())) => {
                &&& r == (BatchAction::Consume, None::<LogLine>)
                &&& final(tally).processed == old(tally).processed + 1
                &&& final(tally).failed == old(tally).failed
            },
            BatchEvent::Acknowledged(Err(e)) => {
                &&& r.0 is Fail
                &&& r.0->Fail_0@ == "Ack error: "@ + e.message()
                &&& r.1 is None
                &&& *final(tally) == *old(tally)
            },
        },
{
    match event {
        BatchEvent::Loaded(Ok(())) => (BatchAction::Consume, None),
        BatchEvent::Loaded(Err(e)) => (
            BatchAction::Fail(prefixed("Failed to load batch: ", e.to_string().as_str())),
            None,
        ),
        BatchEvent::Consumed(Ok(true)) => (BatchAction::Process, None),
        BatchEvent::Consumed(Ok(false)) => (
            BatchAction::Finish { processed: tally.processed, failed: tally.failed },
            None,
        ),
        BatchEvent::Consumed(Err(e)) => (
            BatchAction::Fail(prefixed("Consume error: ", e.to_string().as_str())),
            None,
        ),
        BatchEvent::Processed(outcome) => {
            if BatchTally::acknowledges(outcome) {
                return (BatchAction::Acknowledge, None);
            }
            let line = match outcome {
                Ok(ProcessingResult::Failure(reason)) => Some(
                    LogLine { to_stderr: true, text: prefixed("Processing failed: ", reason.as_str()) },
                ),
                Ok(ProcessingResult::Skipped(reason)) => Some(
                    LogLine { to_stderr: false, text: prefixed("Skipped: ", reason.as_str()) },
                ),
                Err(e) => Some(
                    LogLine {
                        to_stderr: true,
                        text: prefixed("Processing error: ", e.to_string().as_str()),
                    },
                ),
                Ok(ProcessingResult::Success) => None,
            };
            tally.record(outcome);
            (BatchAction::Consume, line)
        },
        BatchEvent::Acknowledged(Ok(())) => {
            tally.record(&Ok(ProcessingResult::Success));
            (BatchAction::Consume, None)
        },
        BatchEvent::Acknowledged(Err(e)) => (
            BatchAction::Fail(prefixed("Ack error: ", e.to_string().as_str())),
            None,
        ),
    }
}

/// Every event of a batch is counted once: as processed or as failed.
pub proof fn law_every_event_counted_once(outcomes: Seq<Result<ProcessingResult, ProcessingError>>)
    ensures
        tally_of(outcomes).0 + tally_of(outcomes).1 == outcomes.len(),
    decreases outcomes.len(),
{
    if outcomes.len() > 0 {
        law_every_event_counted_once(outcomes.drop_last());
    }
}

/// Counting one more event moves the tally of a batch as `record` moves a
/// `BatchTally`: one more processed, or one more failed.
pub proof fn law_tally_counts_each_step(
    outcomes: Seq<Result<ProcessingResult, ProcessingError>>,
    next: Result<ProcessingResult, ProcessingError>,
)
    ensures
        counts_as_processed(next) ==> tally_of(outcomes.push(next)) == (
            tally_of(outcomes).0 + 1,
            tally_of(outcomes).1,
        ),
        !counts_as_processed(next) ==> tally_of(outcomes.push(next)) == (
            tally_of(outcomes).0,
            tally_of(outcomes).1 + 1,
        ),
{
    assert(outcomes.push(next).drop_last() =~= outcomes);
}

/// An event whose processing returned an error, of whichever kind, or
/// reported a failure is counted as failed and never as processed; one that
/// succeeded or was skipped is counted as processed and never as failed.
pub proof fn law_errors_and_failures_count_as_failed(
    outcomes: Seq<Result<ProcessingResult, ProcessingError>>,
    error: ProcessingError,
    reason: String,
)
    ensures
        tally_of(outcomes.push(Err(error))) == (tally_of(outcomes).0, tally_of(outcomes).1 + 1),
        tally_of(outcomes.push(Ok(ProcessingResult::Failure(reason)))) == (
            tally_of(outcomes).0,
            tally_of(outcomes).1 + 1,
        ),
        tally_of(outcomes.push(Ok(ProcessingResult::Success))) == (
            tally_of(outcomes).0 + 1,
            tally_of(outcomes).1,
        ),
        tally_of(outcomes.push(Ok(ProcessingResult::Skipped(reason)))) == (
            tally_of(outcomes).0 + 1,
            tally_of(outcomes).1,
        ),
{
    assert(outcomes.push(Err(error)).drop_last() =~= outcomes);
    assert(outcomes.push(Ok(ProcessingResult::Failure(reason))).drop_last() =~= outcomes);
    assert(outcomes.push(Ok(ProcessingResult::Success)).drop_last() =~= outcomes);
    assert(outcomes.push(Ok(ProcessingResult::Skipped(reason))).drop_last() =~= outcomes);
}

/// An acknowledged event always counts as processed.
pub proof fn law_acknowledged_is_processed(outcome: Result<ProcessingResult, ProcessingError>)
    ensures
        is_acknowledged(outcome) ==> counts_as_processed(outcome),
{
}

} // verus!
