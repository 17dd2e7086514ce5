use monitor::errors::PidError;
use monitor::probe::{interpret_probe, is_alive, ProbeOutcome, MAX_PROBE_PID};

#[test]
fn self_is_alive() {
    // The calling process certainly exists at the moment of the call.
    let own_pid = nix::unistd::getpid().as_raw() as u32;
    assert_eq!(is_alive(own_pid), Ok(true));
}

#[test]
fn unused_pid_is_dead() {
    // The largest addressable pid: Linux caps pid numbers far below
    // i32::MAX (pid_max is at most 2^22), so this identifier is
    // guaranteed unused and the probe must answer "no such process".
    assert_eq!(is_alive(MAX_PROBE_PID), Ok(false));
}

#[test]
fn pid_zero_is_a_probe_error() {
    // Zero addresses the caller's process group, not a process.
    assert_eq!(is_alive(0), Err(PidError::ProbeError));
}

#[test]
fn init_process_exists() {
    // Pid 1 always exists; probing it from an unprivileged process
    // answers either success or permission denied, both "alive".
    assert_eq!(is_alive(1), Ok(true));
}

#[test]
fn verdict_of_each_outcome() {
    assert_eq!(interpret_probe(ProbeOutcome::Live), Ok(true));
    assert_eq!(interpret_probe(ProbeOutcome::PermissionDenied), Ok(true));
    assert_eq!(interpret_probe(ProbeOutcome::NoSuchProcess), Ok(false));
    assert_eq!(
        interpret_probe(ProbeOutcome::Failed),
        Err(PidError::ProbeError)
    );
}
