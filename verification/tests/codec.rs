use monitor::codec::{decode, encode, PidRecord, MAGIC0, MAGIC1, MAGIC2, RECORD_LEN};
use monitor::errors::PidError;

#[test]
fn encode_layout_is_exact() {
    // 4242 is 0x00001092, so the big-endian pid bytes are 0, 0, 16, 146.
    let bytes = encode(4242);
    assert_eq!(bytes, vec![77u8, 79, 78, 0, 0, 16, 146]);
    assert_eq!(bytes.len(), RECORD_LEN);
    assert_eq!(&bytes[..3], &[MAGIC0, MAGIC1, MAGIC2]);
}

#[test]
fn round_trip_small_pid() {
    let bytes = encode(4242);
    assert_eq!(decode(&bytes), Ok(PidRecord { pid: 4242 }));
}

#[test]
fn round_trip_zero_pid() {
    let bytes = encode(0);
    assert_eq!(decode(&bytes), Ok(PidRecord { pid: 0 }));
}

#[test]
fn round_trip_max_pid() {
    let bytes = encode(u32::MAX);
    assert_eq!(decode(&bytes), Ok(PidRecord { pid: u32::MAX }));
    assert_eq!(&bytes[3..], &[255u8, 255, 255, 255]);
}

#[test]
fn decode_rejects_corrupt_first_magic_byte() {
    let mut bytes = encode(4242);
    bytes[0] = 0;
    assert_eq!(decode(&bytes), Err(PidError::InvalidFormat));
}

#[test]
fn decode_rejects_each_corrupt_magic_position() {
    for pos in 0..3 {
        let mut bytes = encode(77);
        bytes[pos] ^= 0xFF;
        assert_eq!(decode(&bytes), Err(PidError::InvalidFormat));
    }
}

#[test]
fn decode_rejects_empty_buffer() {
    assert_eq!(decode(&[]), Err(PidError::InvalidFormat));
}

#[test]
fn decode_rejects_short_buffer() {
    // Six bytes: a correct magic tag does not save a truncated record.
    assert_eq!(decode(&[77, 79, 78, 0, 0, 16]), Err(PidError::InvalidFormat));
}

#[test]
fn decode_rejects_long_buffer() {
    assert_eq!(
        decode(&[77, 79, 78, 0, 0, 16, 146, 0]),
        Err(PidError::InvalidFormat)
    );
}

#[test]
fn decode_reads_big_endian() {
    // 0x01020304 laid out most significant byte first.
    let bytes = [77, 79, 78, 1, 2, 3, 4];
    assert_eq!(decode(&bytes), Ok(PidRecord { pid: 0x01020304 }));
}
