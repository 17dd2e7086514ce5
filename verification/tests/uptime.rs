use monitor::errors::PidError;
use monitor::uptime::uptime;

#[test]
fn uptime_is_the_difference() {
    assert_eq!(uptime(100, 127), Ok(27));
}

#[test]
fn uptime_of_a_fresh_file_is_zero() {
    assert_eq!(uptime(500, 500), Ok(0));
}

#[test]
fn negative_uptime_is_a_clock_error() {
    // A creation time in the future is rejected, not clamped.
    assert_eq!(uptime(127, 100), Err(PidError::ClockError));
}

#[test]
fn sequential_readings_are_monotonic() {
    // Two readings against the same creation instant, the second with
    // a later clock: the second is at least the first.
    let first = uptime(1000, 1020).unwrap();
    let second = uptime(1000, 1031).unwrap();
    assert!(second >= first);
}

#[test]
fn largest_representable_uptime() {
    assert_eq!(uptime(0, u64::MAX), Ok(u64::MAX));
}
