//! The liveness probe: a non-destructive, point-in-time existence
//! check against the operating system's process table.
//!
//! Policy for ambiguous outcomes: a permission-denied answer means the
//! process exists but is not accessible, so it reports alive; any
//! other failure of the query itself is propagated as `ProbeError`,
//! never silently downgraded to "dead".

use vstd::prelude::*;

use crate::errors::PidError;

verus! {

/// Largest pid the probe can address: the operating system's process
/// identifiers are signed 32-bit values.
pub const MAX_PROBE_PID: u32 = 0x7FFF_FFFF;

/// What one probe of the process table observed.
#[derive(Clone, Copy, Debug, PartialEq, Eq, Structural)]
pub enum ProbeOutcome {
    /// The query succeeded: the process exists.
    Live,
    /// No process with that identifier exists.
    NoSuchProcess,
    /// The process exists but the caller may not signal it.
    PermissionDenied,
    /// The query itself failed for some other reason.
    Failed,
}

/// The pids the probe can address: positive and within the signed
/// 32-bit range. Zero never names an individual process (it addresses
/// the caller's own process group), and larger values are not
/// representable to the process table.
pub open spec fn probe_applicable(pid: u32) -> bool {
    1 <= pid <= MAX_PROBE_PID
}

/// The verdict drawn from each probe outcome: existence and
/// permission-denied both mean alive, absence means dead, and any
/// other query failure is surfaced as `ProbeError`.
pub open spec fn spec_verdict(outcome: ProbeOutcome) -> Result<bool, PidError> {
    match outcome {
        ProbeOutcome::Live => Ok(true),
        ProbeOutcome::PermissionDenied => Ok(true),
        ProbeOutcome::NoSuchProcess => Ok(false),
        ProbeOutcome::Failed => Err(PidError::ProbeError),
    }
}

/// Relies on nix::sys::signal::kill with no signal: the operating
/// system performs its error checking for the target pid but delivers
/// nothing, so the target's state is unchanged. `ESRCH` means no such
/// process and `EPERM` means the caller lacks permission to signal an
/// existing process; what comes back depends on the process table at
/// the moment of the call, so nothing is promised of the outcome.
#[verifier::external_body]
fn probe_process_table(pid: i32) -> (outcome: ProbeOutcome)
    requires
        1 <= pid,
{
    match nix::sys::signal::kill(nix::unistd::Pid::from_raw(pid), None) {
        Ok(()) => ProbeOutcome::Live,
        Err(nix::errno::Errno::ESRCH) => ProbeOutcome::NoSuchProcess,
        Err(nix::errno::Errno::EPERM) => ProbeOutcome::PermissionDenied,
        Err(_) => ProbeOutcome::Failed,
    }
}

/// Turns a probe outcome into the liveness verdict, exactly as
/// `spec_verdict` states it.
pub fn interpret_probe(outcome: ProbeOutcome) -> (r: Result<bool, PidError>)
    ensures
        r == spec_verdict(outcome),
{
    match outcome {
        ProbeOutcome::Live => Ok(true),
        ProbeOutcome::PermissionDenied => Ok(true),
        ProbeOutcome::NoSuchProcess => Ok(false),
        ProbeOutcome::Failed => Err(PidError::ProbeError),
    }
}

/// Queries whether `pid` currently refers to a live process: a single
/// synchronous probe, no retries, the target untouched.
///
/// A pid outside the addressable range fails with `ProbeError`; for an
/// addressable pid the result is the verdict on whatever the process
/// table answered at that moment, so the only error this function ever
/// returns is `ProbeError`.
pub fn is_alive(pid: u32) -> (r: Result<bool, PidError>)
    ensures
        !probe_applicable(pid) ==> r == Err::<bool, PidError>(PidError::ProbeError),
        r is Err ==> r == Err::<bool, PidError>(PidError::ProbeError),
        r is Ok ==> probe_applicable(pid),
{
    if pid == 0 || pid > MAX_PROBE_PID {
        return Err(PidError::ProbeError);
    }
    let outcome = probe_process_table(pid as i32);
    interpret_probe(outcome)
}

} // verus!
