//! The pidfile record codec: a fixed seven-byte binary layout.
//!
//! | offset | length | field | encoding                    |
//! |--------|--------|-------|-----------------------------|
//! | 0      | 3      | magic | the ASCII constant `"MON"`  |
//! | 3      | 4      | pid   | unsigned 32-bit, big-endian |

use vstd::prelude::*;

use crate::errors::PidError;

verus! {

/// First byte of the magic tag, ASCII `M`.
pub const MAGIC0: u8 = 77;
/// Second byte of the magic tag, ASCII `O`.
pub const MAGIC1: u8 = 79;
/// Third byte of the magic tag, ASCII `N`.
pub const MAGIC2: u8 = 78;

/// Total encoded length of a record, magic tag included.
pub const RECORD_LEN: usize = 7;

/// The persisted entity: a decoded pidfile record.
///
/// The three-byte magic tag is format framing, not data: `decode`
/// checks it before interpreting any later byte, and `encode` always
/// writes it, so only the process identifier is carried here.
#[derive(Clone, Copy, Debug, PartialEq, Eq, Structural)]
pub struct PidRecord {
    /// The operating-system process identifier at time of writing.
    pub pid: u32,
}

/// The encoded form of a record: the magic tag followed by the four
/// big-endian bytes of the pid.
pub open spec fn spec_encode(pid: u32) -> Seq<u8> {
    seq![
        MAGIC0,
        MAGIC1,
        MAGIC2,
        (pid >> 24) as u8,
        (pid >> 16) as u8,
        (pid >> 8) as u8,
        pid as u8,
    ]
}

/// Whether a buffer starts with the three magic bytes.
pub open spec fn magic_ok(bytes: Seq<u8>) -> bool {
    &&& bytes.len() >= 3
    &&& bytes[0] == MAGIC0
    &&& bytes[1] == MAGIC1
    &&& bytes[2] == MAGIC2
}

/// The pid held in a well-formed buffer: bytes 3 to 6, big-endian.
pub open spec fn spec_pid_of(bytes: Seq<u8>) -> u32
    recommends
        bytes.len() == RECORD_LEN,
{
    ((bytes[3] as u32) << 24) | ((bytes[4] as u32) << 16) | ((bytes[5] as u32) << 8)
        | (bytes[6] as u32)
}

/// What `decode` returns on any buffer: the length check, then the
/// magic check, and only then the pid bytes.
pub open spec fn spec_decode(bytes: Seq<u8>) -> Result<PidRecord, PidError> {
    if bytes.len() != RECORD_LEN {
        Err(PidError::InvalidFormat)
    } else if !magic_ok(bytes) {
        Err(PidError::InvalidFormat)
    } else {
        Ok(PidRecord { pid: spec_pid_of(bytes) })
    }
}

/// Serializes a record: exactly seven bytes, the magic tag followed by
/// the big-endian pid. No error conditions; every `u32` is encodable.
pub fn encode(pid: u32) -> (r: Vec<u8>)
    ensures
        r@ == spec_encode(pid),
        r@.len() == RECORD_LEN,
{
    let mut out: Vec<u8> = Vec::new();
    out.push(MAGIC0);
    out.push(MAGIC1);
    out.push(MAGIC2);
    out.push((pid >> 24) as u8);
    out.push((pid >> 16) as u8);
    out.push((pid >> 8) as u8);
    out.push(pid as u8);
    proof {
        assert(out@ =~= spec_encode(pid));
    }
    out
}

/// Deserializes a buffer, failing with `InvalidFormat` when the length
/// is not exactly seven bytes or the magic tag does not match. The
/// magic check is a precondition for interpreting any subsequent byte:
/// no partial decoding is attempted.
pub fn decode(bytes: &[u8]) -> (r: Result<PidRecord, PidError>)
    ensures
        r == spec_decode(bytes@),
{
    if bytes.len() != RECORD_LEN {
        return Err(PidError::InvalidFormat);
    }
    if bytes[0] != MAGIC0 || bytes[1] != MAGIC1 || bytes[2] != MAGIC2 {
        return Err(PidError::InvalidFormat);
    }
    let pid: u32 = ((bytes[3] as u32) << 24) | ((bytes[4] as u32) << 16) | ((bytes[5] as u32)
        << 8) | (bytes[6] as u32);
    Ok(PidRecord { pid })
}

/// Round-trip law: decoding an encoded record yields the original pid,
/// for every 32-bit pid.
pub proof fn lemma_round_trip(pid: u32)
    ensures
        spec_decode(spec_encode(pid)) == Ok::<PidRecord, PidError>(PidRecord { pid }),
{
    let bytes = spec_encode(pid);
    assert(bytes.len() == RECORD_LEN);
    assert(magic_ok(bytes));
    assert((((pid >> 24) as u8 as u32) << 24) | (((pid >> 16) as u8 as u32) << 16) | (((pid
        >> 8) as u8 as u32) << 8) | (pid as u8 as u32) == pid) by (bit_vector);
}

/// Rejection law: any seven-byte buffer whose first three bytes differ
/// from the magic tag fails with `InvalidFormat`.
pub proof fn lemma_reject_bad_magic(bytes: Seq<u8>)
    requires
        bytes.len() == RECORD_LEN,
        !(bytes[0] == MAGIC0 && bytes[1] == MAGIC1 && bytes[2] == MAGIC2),
    ensures
        spec_decode(bytes) == Err::<PidRecord, PidError>(PidError::InvalidFormat),
{
}

/// Rejection law: any buffer whose length is not exactly seven bytes
/// fails with `InvalidFormat`.
pub proof fn lemma_reject_bad_length(bytes: Seq<u8>)
    requires
        bytes.len() != RECORD_LEN,
    ensures
        spec_decode(bytes) == Err::<PidRecord, PidError>(PidError::InvalidFormat),
{
}

} // verus!
