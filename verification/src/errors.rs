use vstd::prelude::*;

verus! {

/// The error taxonomy of the supervision core.
///
/// Every fallible operation reports one of these typed values; none of
/// them is ever handled by crashing the process.
#[derive(Clone, Copy, Debug, PartialEq, Eq, Structural)]
pub enum PidError {
    /// The pidfile contents are the wrong length or lack the magic
    /// prefix. Recovered by treating the file as absent or untrusted,
    /// never by guessing a pid from malformed bytes.
    InvalidFormat,
    /// An underlying read, write or open failure, surfaced as-is.
    IOError,
    /// The liveness query itself failed for a reason other than
    /// "process not found"; surfaced, not silently downgraded to
    /// "dead".
    ProbeError,
    /// The uptime computation found unsupported metadata or a negative
    /// duration.
    ClockError,
}

} // verus!
