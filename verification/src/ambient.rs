//! What a handler takes from the machine it runs on: a fresh identifier and
//! the time of day.

use vstd::prelude::*;

verus! {

/// `id` is laid out as a random UUID: the version digit is 4 and the two
/// variant bits are `10`.
pub open spec fn is_random_uuid(id: u128) -> bool {
    (id >> 76u128) & 0xfu128 == 4u128 && (id >> 62u128) & 0x3u128 == 2u128
}

/// A fresh random identifier, from `uuid::Uuid::new_v4`, as the 128 bits that
/// `Uuid::as_u128` gives.
///
/// Trusted: `new_v4` takes 128 random bits, clears the version and variant
/// bits and sets them to version 4, variant `10`. Nothing is claimed of the
/// other 122 bits, and nothing of two calls giving different values.
#[verifier::external_body]
pub(crate) fn random_uuid() -> (id: u128)
    ensures
        is_random_uuid(id),
{
    uuid::Uuid::new_v4().as_u128()
}

/// The current time in UTC, from `chrono::Utc::now`, as the microseconds since
/// the Unix epoch that `DateTime::timestamp_micros` gives.
///
/// Trusted, with nothing claimed of the value. `Utc::now` does not return on
/// a machine whose clock stands before the epoch.
#[verifier::external_body]
pub(crate) fn utc_now_micros() -> (now: i64) {
    chrono::Utc::now().naive_utc().and_utc().timestamp_micros()
}

} // verus!
