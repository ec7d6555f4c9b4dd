//! The system clock.
use vstd::prelude::*;

verus! {

/// Seconds since the Unix epoch by the system clock
/// (`SystemTime::now().duration_since(UNIX_EPOCH)`), or none when the clock
/// reads before the epoch. The reading depends on the time of the call, so
/// nothing is stated of it.
#[verifier::external_body]
pub(crate) fn system_unix_secs() -> Option<u64> {
    std::time::SystemTime::now().duration_since(std::time::UNIX_EPOCH).ok().map(|d| d.as_secs())
}

/// Seconds since the Unix epoch now; a clock set before the epoch reads as 0.
pub(crate) fn unix_now_secs() -> u64 {
    epoch_secs_or_zero(system_unix_secs())
}

/// The seconds of a clock reading; a reading before the epoch counts as 0.
pub(crate) fn epoch_secs_or_zero(reading: Option<u64>) -> (r: u64)
    ensures
        r == match reading {
            Some(secs) => secs,
            None => 0,
        },
{
    match reading {
        Some(secs) => secs,
        None => 0,
    }
}

} // verus!
