//! The status reporter: composes the codec, the liveness probe and
//! the uptime computation into one point-in-time query.
//!
//! The caller reads the pidfile's bytes and the two timestamps from
//! the filesystem and the wall clock; this module decodes, probes and
//! assembles, propagating any underlying error without translation.

use vstd::prelude::*;

use crate::codec;
use crate::errors::PidError;
use crate::probe;
use crate::uptime;

verus! {

/// An ephemeral, derived, read-only status value, owned solely by the
/// caller of the query; never shared or persisted.
#[derive(Clone, Copy, Debug, PartialEq, Eq, Structural)]
pub struct PidStatus {
    /// The process identifier decoded from the record.
    pub pid: u32,
    /// The liveness probe's verdict at query time; not cached, not
    /// persisted.
    pub is_alive: bool,
    /// Seconds between the pidfile's creation and the query. Only
    /// meaningful when `is_alive` is true, but computed regardless:
    /// the caller decides whether to display it.
    pub uptime_secs: u64,
}

/// Answers the status query from the pidfile's full contents and the
/// two instants, in seconds since the Unix epoch, that the caller read
/// beside them: the file's creation time and the wall clock now.
///
/// The contents are decoded first; a malformed record fails with
/// `InvalidFormat` and no probe is made. The decoded pid is then
/// probed and the uptime computed, and any underlying error is
/// propagated without translation: the probe's before the clock's.
/// The probe's verdict depends on the process table at the moment of
/// the call, so success is promised only up to a possible
/// `ProbeError`.
pub fn query_status(bytes: &[u8], created_secs: u64, now_secs: u64) -> (r: Result<
    PidStatus,
    PidError,
>)
    ensures
        codec::spec_decode(bytes@) matches Err(e) ==> r == Err::<PidStatus, PidError>(e),
        codec::spec_decode(bytes@) matches Ok(record) ==> {
            &&& !probe::probe_applicable(record.pid) ==> r == Err::<PidStatus, PidError>(
                PidError::ProbeError,
            )
            &&& r matches Ok(status) ==> {
                &&& status.pid == record.pid
                &&& now_secs >= created_secs
                &&& status.uptime_secs == now_secs - created_secs
            }
            &&& r is Err ==> (r == Err::<PidStatus, PidError>(PidError::ProbeError) || r
                == Err::<PidStatus, PidError>(PidError::ClockError))
            &&& r == Err::<PidStatus, PidError>(PidError::ClockError) ==> now_secs
                < created_secs
            &&& (probe::probe_applicable(record.pid) && now_secs < created_secs) ==> r is Err
            &&& (probe::probe_applicable(record.pid) && now_secs >= created_secs) ==> (r is Ok
                || r == Err::<PidStatus, PidError>(PidError::ProbeError))
        },
{
    let record = match codec::decode(bytes) {
        Ok(record) => record,
        Err(e) => { return Err(e); },
    };
    let alive = match probe::is_alive(record.pid) {
        Ok(alive) => alive,
        Err(e) => { return Err(e); },
    };
    let elapsed = match uptime::uptime(created_secs, now_secs) {
        Ok(secs) => secs,
        Err(e) => { return Err(e); },
    };
    Ok(PidStatus { pid: record.pid, is_alive: alive, uptime_secs: elapsed })
}

} // verus!
