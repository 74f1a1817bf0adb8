//! Strongly-typed identifiers: each kind of id is its own type, so that ids
//! of different meaning cannot be mixed up.

use vstd::prelude::*;
use vstd::string::*;
use crate::foreign::{random_uuid_v4, uuid_text};
use crate::text::{byte_count, fits_in_bytes, hyphenated_uuid, is_uuid_v4, lemma_hyphenated_uuid_shape};

verus! {

/// A fresh identifier: the hyphenated text of a random version-4 UUID.
fn uuid_like() -> (id: String)
    ensures
        exists|v: u128| is_uuid_v4(v) && id@ == hyphenated_uuid(v),
{
    uuid_text(random_uuid_v4())
}

/// Identifies an API request while it travels through the system.
#[derive(Debug, Clone, PartialEq, Eq, Hash)]
pub struct RequestId(String);

impl View for RequestId {
    type V = Seq<char>;

    closed spec fn view(&self) -> Seq<char> {
        self.0@
    }
}

impl RequestId {
    /// A request id with the text `id`.
    pub fn new(id: String) -> (r: Self)
        ensures
            r@ == id@,
    {
        RequestId(id)
    }

    /// A new request id based on a UUID: the hyphenated text of a random
    /// version-4 UUID.
    pub fn generate() -> (r: Self)
        ensures
            exists|v: u128| is_uuid_v4(v) && r@ == hyphenated_uuid(v),
    {
        RequestId(uuid_like())
    }

    /// The text of the id.
    pub fn as_str(&self) -> (r: &str)
        ensures
            r@ == self@,
    {
        self.0.as_str()
    }

    /// The text of the id, as `Display` writes it.
    pub fn to_string(&self) -> (r: String)
        ensures
            r@ == self@,
    {
        String::from_str(self.0.as_str())
    }
}

/// Identifies a record of the stream.
#[derive(Debug, Clone, PartialEq, Eq, Hash)]
pub struct StreamRecordId(String);

impl View for StreamRecordId {
    type V = Seq<char>;

    closed spec fn view(&self) -> Seq<char> {
        self.0@
    }
}

impl StreamRecordId {
    /// A record id with the text `id`.
    pub fn new(id: String) -> (r: Self)
        ensures
            r@ == id@,
    {
        StreamRecordId(id)
    }

    /// The text of the id.
    pub fn as_str(&self) -> (r: &str)
        ensures
            r@ == self@,
    {
        self.0.as_str()
    }

    /// The text of the id, as `Display` writes it.
    pub fn to_string(&self) -> (r: String)
        ensures
            r@ == self@,
    {
        String::from_str(self.0.as_str())
    }
}

/// The most bytes a partition key may take.
pub const MAX_PARTITION_KEY_BYTES: usize = 256;

/// Whether `key` may serve as a partition key: it is not empty and takes at
/// most 256 bytes in UTF-8.
pub open spec fn is_partition_key(key: Seq<char>) -> bool {
    key.len() > 0 && byte_count(key) <= MAX_PARTITION_KEY_BYTES
}

/// A generated request id can always serve as a partition key: the
/// hyphenated text of any UUID takes 36 bytes.
pub proof fn law_generated_request_id_is_partition_key(v: u128)
    ensures
        is_partition_key(hyphenated_uuid(v)),
{
    lemma_hyphenated_uuid_shape(v);
}

/// The key by which the stream spreads records over its shards.
#[derive(Debug, PartialEq, Eq, Hash)]
pub struct PartitionKey(String);

impl Clone for PartitionKey {
    fn clone(&self) -> (r: Self)
        ensures
            r@ == self@,
    {
        proof {
            use_type_invariant(self);
        }
        PartitionKey(self.0.clone())
    }
}

impl View for PartitionKey {
    type V = Seq<char>;

    closed spec fn view(&self) -> Seq<char> {
        self.0@
    }
}

impl PartitionKey {
    #[verifier::type_invariant]
    spec fn well_formed(self) -> bool {
        is_partition_key(self.0@)
    }

    /// Accepts `key` if it is not empty and takes at most 256 bytes.
    pub fn create(key: String) -> (r: Option<Self>)
        ensures
            r is Some <==> is_partition_key(key@),
            r matches Some(k) ==> k@ == key@,
    {
        if key.as_str().is_empty() || !fits_in_bytes(key.as_str(), MAX_PARTITION_KEY_BYTES) {
            None
        } else {
            Some(PartitionKey(key))
        }
    }

    /// The text of the key.
    pub fn as_str(&self) -> (r: &str)
        ensures
            r@ == self@,
            is_partition_key(self@),
    {
        proof {
            use_type_invariant(self);
        }
        self.0.as_str()
    }

    /// The text of the key, as `Display` writes it.
    pub fn to_string(&self) -> (r: String)
        ensures
            r@ == self@,
    {
        String::from_str(self.0.as_str())
    }
}

} // verus!
