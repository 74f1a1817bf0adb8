//! The outside types that the library carries through its logic, and the
//! calls into the `uuid` crate.

use vstd::prelude::*;
use crate::text::{hyphenated_uuid, is_uuid_v4};

verus! {

/// `serde_json::Error`, the error of a JSON parse, carried as an opaque value.
#[verifier::external_type_specification]
#[verifier::external_body]
pub struct ExJsonError(serde_json::Error);

/// Calls `uuid::Uuid::new_v4` and takes its 128 bits with `Uuid::as_u128`
/// (most significant first). The bits are random, save the ones that
/// `new_v4` sets: the version nibble is 4 and the variant bits are `10`.
#[verifier::external_body]
pub(crate) fn random_uuid_v4() -> (v: u128)
    ensures
        is_uuid_v4(v),
{
    uuid::Uuid::new_v4().as_u128()
}

/// Calls `Uuid::to_string` (its `Display`) on `Uuid::from_u128(v)`, which
/// writes the hyphenated form: the 32 lower-case hexadecimal digits of `v`
/// in groups of 8, 4, 4, 4 and 12, joined by `-`.
#[verifier::external_body]
pub(crate) fn uuid_text(v: u128) -> (r: String)
    ensures
        r@ == hyphenated_uuid(v),
{
    uuid::Uuid::from_u128(v).to_string()
}

} // verus!
