//! Reading the wall clock.
use vstd::prelude::*;

verus! {

/// The latest second that `chrono`'s `DateTime<Utc>` can hold (the end of
/// the year 262142).
pub const MAX_TIMESTAMP: i64 = 8_210_266_876_799;

/// Calls `chrono::Utc::now().timestamp()`. Claims only that the value is not
/// before the Unix epoch (`Utc::now` panics then) and not after the last
/// second that `DateTime<Utc>` can represent.
#[verifier::external_body]
pub(crate) fn now_timestamp() -> (res: i64)
    ensures
        0 <= res <= MAX_TIMESTAMP,
{
    chrono::Utc::now().timestamp()
}

/// Calls `chrono::Utc::now().timestamp_millis()`. Claims only that the value
/// is not before the Unix epoch and not after the last millisecond that
/// `DateTime<Utc>` can represent.
#[verifier::external_body]
pub(crate) fn now_timestamp_millis() -> (res: i64)
    ensures
        0 <= res <= MAX_TIMESTAMP * 1000 + 999,
{
    chrono::Utc::now().timestamp_millis()
}

} // verus!
