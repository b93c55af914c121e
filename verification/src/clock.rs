//! The time of day, as the whole milliseconds since the Unix epoch.

use vstd::prelude::*;

verus! {

/// `SystemTime::elapsed` of the standard library, asked of the Unix epoch:
/// the time that the system clock shows, in nanoseconds since the epoch, or
/// nothing where the clock stands before it. Nothing is claimed of the
/// reading: two calls may give any two values.
#[verifier::external_body]
fn read_system_clock() -> (r: Option<u128>) {
    std::time::UNIX_EPOCH.elapsed().ok().map(|d| d.as_nanos())
}

/// The whole milliseconds in `nanos` nanoseconds, or the largest value where
/// 64 bits do not hold them.
pub open spec fn millis_of(nanos: u128) -> u64 {
    if nanos / 1_000_000 > u64::MAX {
        u64::MAX
    } else {
        (nanos / 1_000_000) as u64
    }
}

/// The time that a reading of the clock stands for: its whole milliseconds,
/// and 0 for a clock that stands before the epoch.
pub fn millis_from_reading(reading: Option<u128>) -> (r: u64)
    ensures
        r == match reading {
            Some(nanos) => millis_of(nanos),
            None => 0,
        },
{
    match reading {
        Some(nanos) => {
            let ms: u128 = nanos / 1_000_000;
            if ms > 0xffff_ffff_ffff_ffffu128 {
                0xffff_ffff_ffff_ffffu64
            } else {
                ms as u64
            }
        },
        None => 0,
    }
}

/// The time now: what the clock's reading stands for, whatever it is.
pub fn now_millis() -> (r: u64) {
    millis_from_reading(read_system_clock())
}

} // verus!
