//! Byte-level reading and writing.

use rsezsp::ezsp::codec::{Reader, Writer};
use rsezsp::{EzspError, ProtocolVersion};

fn v13() -> ProtocolVersion {
    ProtocolVersion::new(0x0d)
}

#[test]
fn integers_round_trip_little_endian() {
    let mut writer = Writer::new(v13());
    writer.u8(0x12);
    writer.u16(0x3456);
    writer.u32(0x89ab_cdef);
    assert_eq!(
        writer.as_slice(),
        &[0x12, 0x56, 0x34, 0xef, 0xcd, 0xab, 0x89]
    );

    let bytes = writer.into_vec();
    let mut reader = Reader::new(&bytes, v13());
    assert_eq!(reader.u8().expect("u8"), 0x12);
    assert_eq!(reader.u16().expect("u16"), 0x3456);
    assert_eq!(reader.u32().expect("u32"), 0x89ab_cdef);
    assert!(reader.is_empty());
}

#[test]
fn a_truncated_read_says_what_was_missing() {
    let mut reader = Reader::new(&[0x01], v13());
    let error = reader.u32().expect_err("four bytes are not there");
    match error {
        EzspError::TruncatedFrame { needed, available } => {
            assert_eq!(needed, 4);
            assert_eq!(available, 1, "the error must say what was actually there");
        }
        other => panic!("expected a truncation, got {other:?}"),
    }
}

#[test]
fn a_failed_read_does_not_advance_the_cursor() {
    let mut reader = Reader::new(&[0xaa, 0xbb], v13());
    assert!(reader.u32().is_err());
    assert_eq!(reader.remaining(), 2, "a failed read must consume nothing");
    assert_eq!(reader.u16().expect("still readable"), 0xbbaa);
}

#[test]
fn a_length_prefix_longer_than_the_frame_is_refused() {
    let mut reader = Reader::new(&[0x40, 0x01, 0x02], v13());
    assert!(
        matches!(
            reader.length_prefixed(),
            Err(EzspError::TruncatedFrame { needed: 0x40, .. })
        ),
        "a length claiming 64 bytes of a 2-byte body must be refused"
    );
}

#[test]
fn a_length_prefix_of_zero_is_valid_and_empty() {
    let mut reader = Reader::new(&[0x00], v13());
    assert_eq!(reader.length_prefixed().expect("zero length is fine"), &[]);
}

#[test]
fn a_payload_too_long_to_describe_is_refused_not_truncated() {
    let mut writer = Writer::new(v13());
    let long = vec![0u8; 300];
    let error = writer
        .length_prefixed(&long)
        .expect_err("300 bytes cannot be described by one length byte");
    assert!(matches!(
        error,
        EzspError::PayloadTooLong { length: 300, .. }
    ));
}

#[test]
fn take_cannot_be_tricked_into_overflowing() {
    let mut reader = Reader::new(&[0x01, 0x02], v13());
    assert!(reader.take(usize::MAX).is_err());
    assert_eq!(reader.remaining(), 2);
}
