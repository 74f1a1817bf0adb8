//! Events that carry their lifecycle state in their type: an
//! `Event<T, Created>` can be published, an `Event<T, Consumed>` can be
//! processed, and `transition` is the one way from one state to the other.

use vstd::prelude::*;
use core::marker::PhantomData;
use crate::clock::{utc_now, UtcTimestamp, NANOS_PER_SECOND};
use crate::pipeline::metadata::Metadata;
use crate::foreign::{random_uuid_v4, uuid_text};
use crate::text::{hyphenated_uuid, is_uuid_v4};

verus! {

/// Identifies an event.
#[derive(Debug, Clone, Copy, PartialEq, Eq, Hash)]
pub struct EventId(u128);

impl View for EventId {
    type V = u128;

    closed spec fn view(&self) -> u128 {
        self.0
    }
}

impl EventId {
    /// A new event id: a random version-4 UUID.
    pub fn new() -> (r: Self)
        ensures
            is_uuid_v4(r@),
    {
        EventId(random_uuid_v4())
    }

    /// The 128 bits of the UUID that the id holds, most significant first.
    pub fn as_u128(&self) -> (r: u128)
        ensures
            r == self@,
    {
        self.0
    }

    /// The id of the UUID whose 128 bits are `id`.
    pub fn from_u128(id: u128) -> (r: Self)
        ensures
            r@ == id,
    {
        EventId(id)
    }

    /// The id in the hyphenated UUID form, as `Display` writes it.
    pub fn to_string(&self) -> (r: String)
        ensures
            r@ == hyphenated_uuid(self@),
    {
        uuid_text(self.0)
    }
}

impl Default for EventId {
    fn default() -> (r: Self)
        ensures
            is_uuid_v4(r@),
    {
        Self::new()
    }
}

/// The data that an event carries.
#[derive(Debug)]
pub struct Payload<T> {
    pub data: T,
}

impl<T: Clone> Clone for Payload<T> {
    fn clone(&self) -> (r: Self)
        ensures
            vstd::pervasive::cloned(self.data, r.data),
    {
        Payload { data: self.data.clone() }
    }
}

impl<T> Payload<T> {
    /// Wraps `data`.
    pub fn new(data: T) -> (r: Self)
        ensures
            r.data == data,
    {
        Payload { data }
    }
}

/// The state of an event that was created and not yet published.
#[derive(Debug, Clone)]
pub struct Created;

/// The state of an event that was consumed from a stream.
#[derive(Debug, Clone)]
pub struct Consumed;

/// The event that moves through the system; its state `S` is `Created` or
/// `Consumed`.
#[derive(Debug)]
pub struct Event<T, S = Created> {
    pub id: EventId,
    pub payload: Payload<T>,
    pub created_at: UtcTimestamp,
    pub metadata: Metadata,
    pub _state: PhantomData<S>,
}

impl<T: Clone, S> Clone for Event<T, S> {
    fn clone(&self) -> (r: Self)
        ensures
            r.id == self.id,
            vstd::pervasive::cloned(self.payload.data, r.payload.data),
            r.created_at == self.created_at,
            r.metadata@ == self.metadata@,
    {
        Event {
            id: self.id,
            payload: self.payload.clone(),
            created_at: self.created_at,
            metadata: self.metadata.clone(),
            _state: PhantomData,
        }
    }
}

impl<T> Event<T, Created> {
    /// A new event for `payload`, with a fresh id, the current time and no
    /// metadata.
    pub fn new(payload: Payload<T>) -> (r: Self)
        ensures
            r.payload == payload,
            r.metadata@ == Map::<Seq<char>, Seq<char>>::empty(),
            is_uuid_v4(r.id@),
            r.created_at.subsec_nanos < NANOS_PER_SECOND,
    {
        Event {
            id: EventId::new(),
            payload,
            created_at: utc_now(),
            metadata: Metadata::new(),
            _state: PhantomData,
        }
    }
}

impl<T, S> Event<T, S> {
    /// The same event in the state `NewS`.
    pub open spec fn in_state<NewS>(self) -> Event<T, NewS> {
        Event {
            id: self.id,
            payload: self.payload,
            created_at: self.created_at,
            metadata: self.metadata,
            _state: PhantomData,
        }
    }

    /// The event with `key` set to `value` in its metadata; the rest of the
    /// event is unchanged.
    pub fn with_metadata(self, key: String, value: String) -> (r: Self)
        ensures
            r.id == self.id,
            r.payload == self.payload,
            r.created_at == self.created_at,
            r.metadata@ == self.metadata@.insert(key@, value@),
    {
        let mut event = self;
        event.metadata.insert(key, value);
        event
    }

    /// The same event in the state `NewS`: id, payload, creation time and
    /// metadata are kept.
    pub fn transition<NewS>(self) -> (r: Event<T, NewS>)
        ensures
            r.id == self.id,
            r.payload == self.payload,
            r.created_at == self.created_at,
            r.metadata == self.metadata,
            r == self.in_state::<NewS>(),
    {
        Event {
            id: self.id,
            payload: self.payload,
            created_at: self.created_at,
            metadata: self.metadata,
            _state: PhantomData,
        }
    }
}

} // verus!
