//! APS headers and options.

use rsezsp::ezsp::codec::{EzspDecode, EzspEncode, Reader, Writer};
use rsezsp::types::aps::{ApsFrame, ApsOptions, APS_FRAME_LEN};
use rsezsp::ProtocolVersion;

fn v13() -> ProtocolVersion {
    ProtocolVersion::new(0x0d)
}

#[test]
fn an_aps_frame_is_eleven_bytes_and_has_no_radius() {
    let frame = ApsFrame {
        profile_id: 0x0104,
        cluster_id: 0x0006,
        source_endpoint: 1,
        destination_endpoint: 1,
        options: ApsOptions::unicast_defaults(),
        group_id: 0,
        sequence: 0,
    };
    let mut out = Writer::new(v13());
    frame.encode(&mut out).expect("encodes");
    assert_eq!(out.len(), APS_FRAME_LEN);
    assert_eq!(
        out.as_slice(),
        &[
            0x04, 0x01, 0x06, 0x00, 0x01, 0x01, 0x40, 0x01, 0x00, 0x00, 0x00
        ]
    );
}

#[test]
fn an_aps_frame_round_trips() {
    let frame = ApsFrame {
        profile_id: 0x0000,
        cluster_id: 0x8004,
        source_endpoint: 0,
        destination_endpoint: 0,
        options: ApsOptions(0x0140),
        group_id: 0x1234,
        sequence: 0x27,
    };
    let mut out = Writer::new(v13());
    frame.encode(&mut out).expect("encodes");
    let bytes = out.into_vec();
    let mut reader = Reader::new(&bytes, v13());
    assert_eq!(ApsFrame::decode(&mut reader).expect("decodes"), frame);
    assert!(reader.is_empty(), "decoding must consume exactly the frame");
}

#[test]
fn a_truncated_aps_frame_is_refused_at_every_length() {
    for len in 0..APS_FRAME_LEN {
        let bytes = vec![0u8; len];
        let mut reader = Reader::new(&bytes, v13());
        assert!(
            ApsFrame::decode(&mut reader).is_err(),
            "{len} bytes must not decode as an 11-byte frame"
        );
    }
}

#[test]
fn unicast_defaults_carry_retry_and_route_discovery() {
    let options = ApsOptions::unicast_defaults();
    assert!(options.contains(ApsOptions(ApsOptions::RETRY)));
    assert!(options.contains(ApsOptions(ApsOptions::ENABLE_ROUTE_DISCOVERY)));
    assert_eq!(options.0, 0x0140);
}
