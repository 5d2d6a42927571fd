//! The two values that a new record takes from outside the library: a
//! random identifier and the current time.
use vstd::prelude::*;

verus! {

/// Relies on uuid::Uuid::new_v4, read as its 128-bit value
/// (Uuid::as_u128). The value is random; its version nibble is 4 and its
/// variant bits are 0b10, as new_v4 sets them.
#[verifier::external_body]
pub(crate) fn random_uuid() -> (r: u128)
    ensures
        (r >> 76u128) & 0xfu128 == 4,
        (r >> 62u128) & 0x3u128 == 2,
{
    uuid::Uuid::new_v4().as_u128()
}

/// Relies on chrono::Utc::now, read as microseconds since the Unix epoch
/// (DateTime::timestamp_micros). The system clock may give any value.
#[verifier::external_body]
pub(crate) fn now_micros() -> (r: i64) {
    chrono::Utc::now().timestamp_micros()
}

} // verus!
