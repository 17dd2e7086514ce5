//! The uptime computation: elapsed wall-clock time since the
//! pidfile's creation timestamp, at second granularity.
//!
//! The caller supplies both instants as seconds since the Unix epoch;
//! reading the filesystem's creation-time metadata and the wall clock
//! is its concern. A creation time in the future — clock skew, or a
//! filesystem reporting nonsense — is rejected with `ClockError`, not
//! clamped silently, so a clock anomaly stays distinguishable from a
//! genuinely fresh file.

use vstd::prelude::*;

use crate::errors::PidError;

verus! {

/// The elapsed seconds between the two instants, or `ClockError` when
/// the computed duration would be negative.
pub open spec fn spec_uptime(created_secs: u64, now_secs: u64) -> Result<u64, PidError> {
    if now_secs >= created_secs {
        Ok((now_secs - created_secs) as u64)
    } else {
        Err(PidError::ClockError)
    }
}

/// Derives the elapsed running time from the creation instant and the
/// current instant, rejecting a negative duration with `ClockError`.
pub fn uptime(created_secs: u64, now_secs: u64) -> (r: Result<u64, PidError>)
    ensures
        r == spec_uptime(created_secs, now_secs),
{
    if now_secs >= created_secs {
        Ok(now_secs - created_secs)
    } else {
        Err(PidError::ClockError)
    }
}

/// Monotonicity law: of two uptime readings against the same creation
/// instant, the later one is at least the earlier one, and a later
/// reading never fails where an earlier one succeeded.
pub proof fn lemma_uptime_monotonic(created_secs: u64, first_now: u64, second_now: u64)
    requires
        first_now <= second_now,
        spec_uptime(created_secs, first_now) is Ok,
    ensures
        spec_uptime(created_secs, second_now) is Ok,
        spec_uptime(created_secs, second_now)->Ok_0 >= spec_uptime(
            created_secs,
            first_now,
        )->Ok_0,
{
}

} // verus!
