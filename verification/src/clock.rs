use vstd::prelude::*;

verus! {

/// Relies on `time::OffsetDateTime::now_utc` and its
/// `unix_timestamp_nanos` accessor: the current UTC wall-clock instant as
/// nanoseconds since the Unix epoch. The crate restricts dates to the
/// years -9999 through 9999, so the magnitude stays far below 2^69
/// nanoseconds; nothing else is promised of the sample.
#[verifier::external_body]
fn utc_now_unix_nanos() -> (r: i128)
    ensures
        -400_000_000_000_000_000_000 < r < 400_000_000_000_000_000_000,
{
    time::OffsetDateTime::now_utc().unix_timestamp_nanos()
}

/// Samples the wall clock and clamps the sample into the `i64` range the
/// rest of the crate works in. The value is nondeterministic: nothing is
/// promised of it beyond its type.
pub fn system_now_nanos() -> i64 {
    let n = utc_now_unix_nanos();
    if n > i64::MAX as i128 {
        i64::MAX
    } else if n < i64::MIN as i128 {
        i64::MIN
    } else {
        n as i64
    }
}

} // verus!
