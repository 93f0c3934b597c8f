//! Identifiers of the records: UUIDs, held as their 128 bits in the order
//! `uuid::Uuid::as_u128` reads them (`Uuid::from_u128` gives the UUID back).
use vstd::prelude::*;
use uuid::Uuid;

verus! {

/// The bits of a version-4 (random) UUID: the version field reads 4 and the
/// variant field reads `10` (RFC 4122).
pub open spec fn is_v4_uuid(bits: u128) -> bool {
    (bits >> 76u128) & 0xfu128 == 4 && (bits >> 62u128) & 0x3u128 == 2
}

/// A fresh random identifier: `uuid::Uuid::new_v4`, read through
/// `Uuid::as_u128`.
///
/// Of the value, only what holds of every outcome is stated: `new_v4` masks a
/// random number so that the version field is 4 and the variant field is
/// `10`. The rest is random, so two calls may return anything else.
#[verifier::external_body]
pub(crate) fn fresh_id() -> (r: u128)
    ensures
        is_v4_uuid(r),
{
    Uuid::new_v4().as_u128()
}

} // verus!
