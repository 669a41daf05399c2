//! Fresh identifiers and wall-clock timestamps, obtained from the `uuid`
//! and `time` crates. Both results depend on randomness or the clock, so
//! their contracts state only what holds of every outcome.

use vstd::prelude::*;

verus! {

/// Relies on `uuid::Uuid::new_v4` and its `Display` form: a fresh random
/// identifier rendered in the hyphenated format, which is 36 characters
/// long.
#[verifier::external_body]
pub(crate) fn fresh_uuid() -> (r: String)
    ensures
        r@.len() == 36,
{
    uuid::Uuid::new_v4().to_string()
}

/// Relies on `time::OffsetDateTime::now_utc`, read through
/// `unix_timestamp`: the current wall-clock time as whole seconds since the
/// Unix epoch. Nothing can be promised of the clock's value.
#[verifier::external_body]
pub(crate) fn now_unix_timestamp() -> (r: i64) {
    time::OffsetDateTime::now_utc().unix_timestamp()
}

} // verus!
