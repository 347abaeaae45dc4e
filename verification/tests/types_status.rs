//! Statuses at their two widths.

use rsezsp::ezsp::codec::Reader;
use rsezsp::{EzspError, ProtocolVersion, SlStatus};

#[test]
fn a_status_is_one_byte_below_ezsp_fourteen_and_four_above() {
    let bytes = [0x00, 0x11, 0x22, 0x33];

    let mut narrow = Reader::new(&bytes, ProtocolVersion::new(0x0d));
    assert_eq!(SlStatus::decode(&mut narrow).expect("narrow"), SlStatus(SlStatus::OK));
    assert_eq!(
        narrow.remaining(),
        3,
        "v13 must consume exactly one byte, leaving the rest of the response"
    );

    let mut wide = Reader::new(&bytes, ProtocolVersion::new(0x0e));
    assert_eq!(wide.remaining() - 4, 0);
    assert_eq!(
        SlStatus::decode(&mut wide).expect("wide"),
        SlStatus(0x3322_1100)
    );
    assert!(wide.is_empty(), "v14 must consume all four");
}

#[test]
fn an_unknown_status_keeps_its_value() {
    let status = SlStatus(0x0b42);
    assert!(!status.is_ok());
    assert!(status.to_string().contains("0x0b42"), "{status:?}");
}

#[test]
fn only_zero_is_success() {
    assert!(SlStatus(SlStatus::OK).is_ok());
    assert!(SlStatus(SlStatus::OK).into_result().is_ok());
    for raw in [1u32, 0x21, 0x0b13, 0xffff_ffff] {
        let status = SlStatus(raw);
        assert!(!status.is_ok(), "{raw:#x} must not be success");
        assert!(matches!(
            status.into_result(),
            Err(EzspError::Status { .. })
        ));
    }
}
