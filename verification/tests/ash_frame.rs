//! ASH frames and their control bytes.

use rsezsp::ash::frame::{next_sequence, AshFrame, ASH_VERSION, MAX_DATA_FIELD_LEN};
use rsezsp::ash::AshError;

#[test]
fn a_data_control_byte_packs_the_three_fields() {
    let frame = AshFrame::Data {
        frame_num: 2,
        ack_num: 5,
        retransmit: false,
        payload: vec![],
    };
    assert_eq!(frame.control(), 0x25);

    let retransmitted = AshFrame::Data {
        frame_num: 2,
        ack_num: 5,
        retransmit: true,
        payload: vec![],
    };
    assert_eq!(retransmitted.control(), 0x2d, "the retransmit bit is 0x08");
}

#[test]
fn control_bytes_round_trip_for_every_kind() {
    let frames = [
        AshFrame::Data {
            frame_num: 7,
            ack_num: 3,
            retransmit: true,
            payload: vec![0xaa, 0xbb],
        },
        AshFrame::Ack {
            ack_num: 1,
            not_ready: false,
        },
        AshFrame::Ack {
            ack_num: 6,
            not_ready: true,
        },
        AshFrame::Nak {
            ack_num: 2,
            not_ready: false,
        },
        AshFrame::Rst,
        AshFrame::RstAck {
            version: ASH_VERSION,
            reset_code: 0x0b,
        },
        AshFrame::Error {
            version: ASH_VERSION,
            error_code: 0x51,
        },
    ];
    for frame in frames {
        let parsed = AshFrame::from_parts(frame.control(), &frame.body())
            .unwrap_or_else(|e| panic!("{frame:?} must round-trip, got {e:?}"));
        assert_eq!(parsed, frame);
    }
}

#[test]
fn the_fixed_control_bytes_are_not_read_as_ack_or_nak() {
    assert_eq!(AshFrame::from_parts(0xc0, &[]).expect("RST"), AshFrame::Rst);
    assert!(matches!(
        AshFrame::from_parts(0xc1, &[2, 0x0b]).expect("RSTACK"),
        AshFrame::RstAck { .. }
    ));
    assert!(matches!(
        AshFrame::from_parts(0xc2, &[2, 0x51]).expect("ERROR"),
        AshFrame::Error { .. }
    ));
}

#[test]
fn a_short_rstack_is_refused_rather_than_read_as_a_reset() {
    for body in [&[][..], &[2][..], &[2, 0x0b, 0x00][..]] {
        assert!(
            AshFrame::from_parts(0xc1, body).is_err(),
            "RSTACK must carry exactly two body bytes, got {body:?}"
        );
    }
}

#[test]
fn an_ack_carrying_a_body_is_refused() {
    assert!(AshFrame::from_parts(0x81, &[0xff]).is_err());
    assert!(AshFrame::from_parts(0xa1, &[0xff]).is_err());
}

#[test]
fn an_oversized_data_field_is_refused() {
    let body = vec![0u8; MAX_DATA_FIELD_LEN + 1];
    assert!(matches!(
        AshFrame::from_parts(0x00, &body),
        Err(AshError::TooLong { .. })
    ));
}

#[test]
fn sequence_numbers_wrap_at_eight() {
    assert_eq!(next_sequence(0), 1);
    assert_eq!(next_sequence(6), 7);
    assert_eq!(next_sequence(7), 0, "7 wraps to 0, not to 8");
    let frame = AshFrame::Data {
        frame_num: 9,
        ack_num: 11,
        retransmit: false,
        payload: vec![],
    };
    let parsed = AshFrame::from_parts(frame.control(), &[]).expect("parses");
    assert_eq!(
        parsed,
        AshFrame::Data {
            frame_num: 1,
            ack_num: 3,
            retransmit: false,
            payload: vec![]
        },
        "out-of-range numbers must be reduced, never truncated into another field"
    );
}
