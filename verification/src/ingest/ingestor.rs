//! Turns validated user actions into events.

use vstd::prelude::*;
use crate::ingest::UserAction;
use crate::pipeline::events::{Created, Event, Payload};
use crate::pipeline::ingestion::IngestError;
use crate::clock::NANOS_PER_SECOND;
use crate::text::is_uuid_v4;

verus! {

/// Turns each user action into a new event in the `Created` state.
#[derive(Debug, Clone, Copy)]
pub struct UserActionIngestor;

impl UserActionIngestor {
    /// A new event that carries `data`; this never fails.
    pub fn ingest(&self, data: UserAction) -> (r: Result<Event<UserAction, Created>, IngestError>)
        ensures
            r is Ok,
            r->Ok_0.payload.data == data,
            r->Ok_0.metadata@ == Map::<Seq<char>, Seq<char>>::empty(),
            is_uuid_v4(r->Ok_0.id@),
            r->Ok_0.created_at.subsec_nanos < NANOS_PER_SECOND,
    {
        Ok(Event::new(Payload::new(data)))
    }
}

} // verus!
