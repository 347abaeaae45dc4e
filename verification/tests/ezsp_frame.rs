//! EZSP headers.

use rsezsp::ezsp::codec::Writer;
use rsezsp::ezsp::frame::{
    parse, write_header, Direction, FrameId, HeaderFormat, MAX_FRAME_LENGTH,
};
use rsezsp::{EzspError, ProtocolVersion};

fn v13() -> ProtocolVersion {
    ProtocolVersion::new(0x0d)
}

#[test]
fn the_bootstrap_version_command_uses_the_legacy_header() {
    let mut out = Writer::new(v13());
    write_header(&mut out, 0x00, FrameId(FrameId::VERSION), HeaderFormat::Legacy).expect("legacy");
    out.u8(0x13);
    assert_eq!(out.as_slice(), &[0x00, 0x00, 0x00, 0x13]);
}

#[test]
fn every_other_command_uses_the_extended_header() {
    let mut out = Writer::new(v13());
    write_header(
        &mut out,
        0x16,
        FrameId(FrameId::IMPORT_TRANSIENT_KEY),
        HeaderFormat::Extended,
    )
    .expect("extended");
    assert_eq!(
        out.as_slice(),
        &[0x16, 0x00, 0x01, 0x11, 0x01],
        "must match the bytes a real NCP was seen to accept"
    );
}

#[test]
fn a_legacy_header_refuses_a_frame_id_it_cannot_express() {
    let mut out = Writer::new(v13());
    let error = write_header(
        &mut out,
        0,
        FrameId(FrameId::IMPORT_TRANSIENT_KEY),
        HeaderFormat::Legacy,
    )
    .expect_err("0x0111 does not fit in one byte");
    assert!(matches!(error, EzspError::MalformedHeader { .. }));
}

#[test]
fn a_callback_is_distinguishable_from_a_response() {
    let response =
        parse(&[0x16, 0x80, 0x01, 0x11, 0x01], HeaderFormat::Extended).expect("parses");
    assert_eq!(response.control.direction, Direction::Response);
    assert!(
        !response.control.is_callback,
        "a plain response is not a callback"
    );

    let callback =
        parse(&[0x2b, 0x90, 0x01, 0x45, 0x00], HeaderFormat::Extended).expect("parses");
    assert!(
        callback.control.is_callback,
        "0x10 in the low control byte marks an asynchronous callback"
    );
    assert_eq!(callback.frame_id, FrameId(FrameId::INCOMING_MESSAGE_HANDLER));
}

#[test]
fn a_frame_too_short_for_its_header_is_refused() {
    for len in 0..5 {
        let bytes = vec![0u8; len];
        assert!(
            parse(&bytes, HeaderFormat::Extended).is_err(),
            "{len} bytes cannot hold a 5-byte header"
        );
    }
    assert!(parse(&[0x00, 0x00], HeaderFormat::Legacy).is_err());
    assert!(parse(&[0x00, 0x00, 0x00], HeaderFormat::Legacy).is_ok());
}

#[test]
fn a_frame_longer_than_the_protocol_allows_is_refused() {
    let bytes = vec![0u8; MAX_FRAME_LENGTH + 1];
    assert!(matches!(
        parse(&bytes, HeaderFormat::Extended),
        Err(EzspError::FrameTooLong { .. })
    ));
}

#[test]
fn a_header_with_no_parameters_yields_an_empty_body_not_an_error() {
    let frame = parse(&[0x01, 0x00, 0x01, 0x26, 0x00], HeaderFormat::Extended).expect("parses");
    assert!(frame.parameters.is_empty());
    assert_eq!(frame.frame_id, FrameId(FrameId::GET_EUI64));
}

#[test]
fn an_unknown_frame_id_reports_its_number() {
    let id = FrameId(0x0999);
    assert_eq!(id.name(), None);
    assert!(id.to_string().contains("0x0999"), "{id:?}");
}
