//! Small helpers on timestamps.

use vstd::prelude::*;

verus! {

/// Whether, at `now`, the span of `seconds` seconds that began at `time` is
/// over. It is over from the instant `time + seconds` on, that instant
/// included. Both instants are in milliseconds since the Unix epoch; the sum
/// is taken over the integers, so no input overflows.
pub fn has_time_passed(time: i64, seconds: i64, now: i64) -> (res: bool)
    ensures
        res == (now >= time + seconds * 1000),
{
    let deadline: i128 = time as i128 + seconds as i128 * 1000;
    deadline <= now as i128
}

} // verus!
