//! What the ingest service answers an API request, once it knows how far the
//! request got: validated, ingested, published.

use vstd::prelude::*;
use vstd::string::*;
use crate::pipeline::ingestion::IngestError;
use crate::pipeline::stream::StreamError;
use crate::text::prefixed;

verus! {

/// How far a request got through the ingest service.
#[derive(Debug, Clone)]
pub enum IngestStep {
    /// The request was not a valid user action; the text says why.
    Rejected(String),
    /// The user action could not be turned into an event.
    IngestFailed(IngestError),
    /// The event could not be published.
    PublishFailed(StreamError),
    /// The event was published.
    Published,
}

/// The HTTP answer to an API Gateway request.
#[derive(Debug, Clone, PartialEq, Eq)]
pub struct GatewayReply {
    pub status_code: i64,
    pub body: String,
}

/// The status code and body that the service answers for `step`.
pub open spec fn reply_for(step: IngestStep) -> (i64, Seq<char>) {
    match step {
        IngestStep::Rejected(reason) => (400, "Invalid request: "@ + reason@),
        IngestStep::IngestFailed(e) => (500, "Ingestion error: "@ + e.message()),
        IngestStep::PublishFailed(e) => (500, "Failed to publish event: "@ + e.message()),
        IngestStep::Published => (200, "Event ingested successfully"@),
    }
}

/// The answer to a request that got as far as `step`: 400 for an invalid
/// request, 500 when ingesting or publishing failed, 200 once published.
pub fn ingest_reply(step: &IngestStep) -> (r: GatewayReply)
    ensures
        (r.status_code, r.body@) == reply_for(*step),
{
    match step {
        IngestStep::Rejected(reason) => GatewayReply {
            status_code: 400,
            body: prefixed("Invalid request: ", reason.as_str()),
        },
        IngestStep::IngestFailed(e) => GatewayReply {
            status_code: 500,
            body: prefixed("Ingestion error: ", e.to_string().as_str()),
        },
        IngestStep::PublishFailed(e) => GatewayReply {
            status_code: 500,
            body: prefixed("Failed to publish event: ", e.to_string().as_str()),
        },
        IngestStep::Published => GatewayReply {
            status_code: 200,
            body: String::from_str("Event ingested successfully"),
        },
    }
}

/// What the ingest service learned from its last step on a request.
#[derive(Debug)]
pub enum IngestEvent {
    /// The request was read as a valid user action, or refused for the
    /// reason given.
    Validated(Result<(), String>),
    /// The user action was turned into an event, or not.
    Ingested(Result<(), IngestError>),
    /// The event was published, or not.
    Published(Result<(), StreamError>),
}

/// What the ingest service does next.
#[derive(Debug, Clone, PartialEq, Eq)]
pub enum IngestAction {
    /// Turn the validated user action into an event.
    Ingest,
    /// Publish the event.
    Publish,
    /// Answer the request, and stop.
    Reply(GatewayReply),
}

/// The next step on a request after `event`: a valid request is ingested,
/// an ingested event is published, and the first failure, or the
/// publication, is answered at once.
pub fn ingest_next(event: IngestEvent) -> (r: IngestAction)
    ensures
        match event {
            IngestEvent::Validated(Ok(())) => r == IngestAction::Ingest,
            IngestEvent::Validated(Err(reason)) => r is Reply && (r->Reply_0.status_code,
            r->Reply_0.body@) == reply_for(IngestStep::Rejected(reason)),
            IngestEvent::Ingested(Ok(())) => r == IngestAction::Publish,
            IngestEvent::Ingested(Err(e)) => r is Reply && (r->Reply_0.status_code,
            r->Reply_0.body@) == reply_for(IngestStep::IngestFailed(e)),
            IngestEvent::Published(Ok(())) => r is Reply && (r->Reply_0.status_code,
            r->Reply_0.body@) == reply_for(IngestStep::Published),
            IngestEvent::Published(Err(e)) => r is Reply && (r->Reply_0.status_code,
            r->Reply_0.body@) == reply_for(IngestStep::PublishFailed(e)),
        },
{
    match event {
        IngestEvent::Validated(Ok(())) => IngestAction::Ingest,
        IngestEvent::Validated(Err(reason)) => IngestAction::Reply(
            ingest_reply(&IngestStep::Rejected(reason)),
        ),
        IngestEvent::Ingested(Ok(())) => IngestAction::Publish,
        IngestEvent::Ingested(Err(e)) => IngestAction::Reply(
            ingest_reply(&IngestStep::IngestFailed(e)),
        ),
        IngestEvent::Published(Ok(())) => IngestAction::Reply(ingest_reply(&IngestStep::Published)),
        IngestEvent::Published(Err(e)) => IngestAction::Reply(
            ingest_reply(&IngestStep::PublishFailed(e)),
        ),
    }
}

/// The request is answered with success exactly when its event was
/// published, and every failure is answered with a client or server error.
pub proof fn law_success_only_when_published(step: IngestStep)
    ensures
        reply_for(step).0 == 200 <==> step is Published,
        !(step is Published) ==> reply_for(step).0 >= 400,
        step is Rejected <==> reply_for(step).0 == 400,
{
}

} // verus!
