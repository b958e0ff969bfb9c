use vstd::prelude::*;

verus! {

#[verifier::external_type_specification]
#[verifier::external_body]
pub struct ExOffsetDateTime(time::OffsetDateTime);

/// Every Unix timestamp that the clock can give lies strictly between
/// `-TIMESTAMP_BOUND` and `TIMESTAMP_BOUND`.
pub const TIMESTAMP_BOUND: i64 = 0x1_0000_0000_0000;

/// Calls `time::OffsetDateTime::now_utc`. The result is the machine's clock,
/// so nothing is claimed of it.
#[verifier::external_body]
pub(crate) fn now_utc() -> time::OffsetDateTime {
    time::OffsetDateTime::now_utc()
}

/// Calls `time::OffsetDateTime::unix_timestamp`. The outside function
/// multiplies a 32-bit day number by the seconds of a day and adds less than
/// two days, so the result stays within 48 bits.
#[verifier::external_body]
pub(crate) fn unix_timestamp(moment: time::OffsetDateTime) -> (seconds: i64)
    ensures
        -TIMESTAMP_BOUND < seconds < TIMESTAMP_BOUND,
{
    moment.unix_timestamp()
}

} // verus!
