//! The stream consumer's answer to a batch: which records failed and must be
//! retried. The stream retries exactly the records named in the answer.

use vstd::prelude::*;
use vstd::string::*;
use crate::process::{or_unknown, text_or_unknown};
use crate::types::events::{ActionType, Severity};

verus! {

/// A record that failed, named by its sequence number.
#[derive(Debug, Clone, PartialEq, Eq)]
pub struct BatchItemFailure {
    pub item_identifier: String,
}

/// The answer to a batch: the records that failed.
#[derive(Debug, Clone, PartialEq, Eq)]
pub struct StreamsEventResponse {
    pub batch_item_failures: Vec<BatchItemFailure>,
}

/// What became of one record of a batch.
#[derive(Debug, Clone, PartialEq, Eq)]
pub struct RecordOutcome {
    /// The record's sequence number, if the stream gave one.
    pub sequence_number: Option<String>,
    /// Whether the record was processed.
    pub succeeded: bool,
}

/// The names of the records of `outcomes` that failed, in order; a record
/// without a sequence number is named `unknown`.
pub open spec fn failed_records(outcomes: Seq<RecordOutcome>) -> Seq<Seq<char>>
    decreases outcomes.len(),
{
    if outcomes.len() == 0 {
        Seq::empty()
    } else if outcomes.last().succeeded {
        failed_records(outcomes.drop_last())
    } else {
        failed_records(outcomes.drop_last()).push(or_unknown(outcomes.last().sequence_number))
    }
}

/// The names that the failures of `response` give.
pub open spec fn failure_names(failures: Seq<BatchItemFailure>) -> Seq<Seq<char>> {
    failures.map_values(|f: BatchItemFailure| f.item_identifier@)
}

/// How many of `outcomes` succeeded.
pub open spec fn success_count(outcomes: Seq<RecordOutcome>) -> nat
    decreases outcomes.len(),
{
    if outcomes.len() == 0 {
        0
    } else if outcomes.last().succeeded {
        success_count(outcomes.drop_last()) + 1
    } else {
        success_count(outcomes.drop_last())
    }
}

/// The answer to a batch whose records ended as `outcomes`: the failed
/// records, by sequence number, in the order of the batch.
pub fn batch_response(outcomes: Vec<RecordOutcome>) -> (r: StreamsEventResponse)
    ensures
        failure_names(r.batch_item_failures@) == failed_records(outcomes@),
{
    let ghost all = outcomes@;
    let mut failures: Vec<BatchItemFailure> = Vec::new();
    let mut i: usize = 0;
    let n = outcomes.len();
    let mut source = outcomes;
    let mut reversed: Vec<RecordOutcome> = Vec::new();
    while source.len() > 0
        invariant
            source@ + reversed@.reverse() == all,
        decreases source@.len(),
    {
        let ghost before = source@;
        let ghost tail = reversed@.reverse();
        let item = source.pop().unwrap();
        reversed.push(item);
        proof {
            assert(reversed@.reverse() =~= seq![item] + tail);
            assert(before =~= source@.push(item));
            assert(source@ + reversed@.reverse() =~= before + tail);
        }
    }
    assert(reversed@.reverse() =~= all);
    assert(all.subrange(0, 0) =~= Seq::<RecordOutcome>::empty());
    assert(failure_names(failures@) =~= Seq::<Seq<char>>::empty());
    while reversed.len() > 0
        invariant
            all == outcomes@,
            all.len() == n,
            reversed@.len() + i == n,
            reversed@.reverse() == all.subrange(i as int, n as int),
            failure_names(failures@) == failed_records(all.subrange(0, i as int)),
        decreases reversed@.len(),
    {
        let ghost rest = reversed@.reverse();
        let outcome = reversed.pop().unwrap();
        proof {
            assert(rest[0] == outcome);
            assert(all[i as int] == outcome);
            assert(all.subrange(0, i + 1).drop_last() =~= all.subrange(0, i as int));
            assert(reversed@.reverse() =~= rest.drop_first());
            assert(rest.drop_first() =~= all.subrange(i + 1, n as int));
        }
        if !outcome.succeeded {
            let ghost named = failures@;
            let name = text_or_unknown(outcome.sequence_number);
            failures.push(BatchItemFailure { item_identifier: name });
            proof {
                assert(failure_names(failures@) =~= failure_names(named).push(name@));
            }
        }
        i = i + 1;
    }
    assert(all.subrange(0, n as int) =~= all);
    StreamsEventResponse { batch_item_failures: failures }
}

/// The level of a log line.
#[derive(Debug, Clone, Copy, PartialEq, Eq, Structural)]
pub enum LogLevel {
    Info,
    Warn,
    Error,
}

/// The level and text with which a user action of kind `kind` is logged:
/// a deletion is a warning, every other kind information.
pub open spec fn action_log(kind: ActionType) -> (LogLevel, Seq<char>) {
    match kind {
        ActionType::Create => (LogLevel::Info, "Handling CREATE action"@),
        ActionType::Update => (LogLevel::Info, "Handling UPDATE action"@),
        ActionType::Delete => (LogLevel::Warn, "Handling DELETE action"@),
        ActionType::View => (LogLevel::Info, "Handling VIEW action"@),
    }
}

/// The level and text with which a user action of kind `kind` is logged.
pub fn log_for_action(kind: ActionType) -> (r: (LogLevel, String))
    ensures
        (r.0, r.1@) == action_log(kind),
{
    match kind {
        ActionType::Create => (LogLevel::Info, String::from_str("Handling CREATE action")),
        ActionType::Update => (LogLevel::Info, String::from_str("Handling UPDATE action")),
        ActionType::Delete => (LogLevel::Warn, String::from_str("Handling DELETE action")),
        ActionType::View => (LogLevel::Info, String::from_str("Handling VIEW action")),
    }
}

/// The level and text with which a system event of severity `level` is
/// logged: an error or a critical event is an error, a warning a warning,
/// and information information.
pub open spec fn severity_log(level: Severity) -> (LogLevel, Seq<char>) {
    match level {
        Severity::Critical => (LogLevel::Error, "High severity system event detected"@),
        Severity::Error => (LogLevel::Error, "High severity system event detected"@),
        Severity::Warning => (LogLevel::Warn, "Warning system event"@),
        Severity::Info => (LogLevel::Info, "Informational system event"@),
    }
}

/// The level and text with which a system event of severity `level` is
/// logged.
pub fn log_for_severity(level: Severity) -> (r: (LogLevel, String))
    ensures
        (r.0, r.1@) == severity_log(level),
{
    match level {
        Severity::Critical | Severity::Error => (
            LogLevel::Error,
            String::from_str("High severity system event detected"),
        ),
        Severity::Warning => (LogLevel::Warn, String::from_str("Warning system event")),
        Severity::Info => (LogLevel::Info, String::from_str("Informational system event")),
    }
}

/// A system event is logged as an error exactly when its severity is
/// `Error` or above in the order of severities.
pub proof fn law_high_severity_is_an_error(level: Severity)
    ensures
        severity_log(level).0 == LogLevel::Error <==> level.level() >= Severity::Error.level(),
{
}

/// Every record of a batch is either a success or named once among the
/// failures, so the failures never outnumber the records.
pub proof fn law_records_succeed_or_are_retried(outcomes: Seq<RecordOutcome>)
    ensures
        success_count(outcomes) + failed_records(outcomes).len() == outcomes.len(),
        failed_records(outcomes).len() <= outcomes.len(),
    decreases outcomes.len(),
{
    if outcomes.len() > 0 {
        law_records_succeed_or_are_retried(outcomes.drop_last());
    }
}

} // verus!
