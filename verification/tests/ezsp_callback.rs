//! The wire layouts of callbacks.

use rsezsp::ezsp::callback::Callback;
use rsezsp::types::aps::ApsFrame;
use rsezsp::{Eui64, FrameId, NodeId, ProtocolVersion, SlStatus};

fn v13() -> ProtocolVersion {
    ProtocolVersion::new(0x0d)
}

#[test]
fn a_stack_status_callback_decodes_the_observed_values() {
    for raw in [0x90u8, 0x9c] {
        let callback =
            Callback::decode(FrameId(FrameId::STACK_STATUS_HANDLER), &[raw], v13()).expect("decodes");
        assert_eq!(
            callback,
            Callback::StackStatus {
                status: SlStatus(u32::from(raw))
            }
        );
    }
}

#[test]
fn a_trust_centre_join_decodes_a_real_capture() {
    let mut parameters = Vec::new();
    parameters.extend_from_slice(&25287u16.to_le_bytes());
    parameters.extend_from_slice(&Eui64::new(0xa4c1_3814_2d62_ffff).to_wire());
    parameters.push(0x00);
    parameters.push(0x00);
    parameters.extend_from_slice(&0u16.to_le_bytes());

    let callback = Callback::decode(FrameId(FrameId::TRUST_CENTER_JOIN_HANDLER), &parameters, v13())
        .expect("decodes");
    assert_eq!(
        callback,
        Callback::TrustCenterJoin {
            node_id: NodeId(25287),
            eui64: Eui64::new(0xa4c1_3814_2d62_ffff),
            device_update: 0,
            decision: 0,
            parent_node_id: NodeId(NodeId::COORDINATOR),
        }
    );
}

#[test]
fn a_message_sent_tag_follows_the_version_boundary() {
    let mut narrow = vec![0x00, 0x41, 0x3a];
    narrow.extend_from_slice(&[0x00; 11]);
    narrow.extend_from_slice(&[0x02, 0x66, 0x00]);
    let decoded =
        Callback::decode(FrameId(FrameId::MESSAGE_SENT_HANDLER), &narrow, v13()).expect("v13 decodes");
    assert_eq!(
        decoded,
        Callback::MessageSent {
            message_type: 0x00,
            index_or_destination: 0x3a41,
            aps_frame: ApsFrame::default(),
            message_tag: 0x02,
            status: SlStatus(102),
            payload: vec![],
        }
    );

    let mut wide = vec![0x00, 0x41, 0x3a];
    wide.extend_from_slice(&[0x00; 11]);
    wide.extend_from_slice(&[0x02, 0x00, 0x66, 0x00, 0x00, 0x00, 0x00]);
    let decoded = Callback::decode(
        FrameId(FrameId::MESSAGE_SENT_HANDLER),
        &wide,
        ProtocolVersion::new(0x0e),
    )
    .expect("v14 decodes");
    assert_eq!(
        decoded,
        Callback::MessageSent {
            message_type: 0x00,
            index_or_destination: 0x3a41,
            aps_frame: ApsFrame::default(),
            message_tag: 0x0002,
            status: SlStatus(0x66),
            payload: vec![],
        }
    );
}

#[test]
fn an_unknown_callback_keeps_its_bytes_rather_than_failing() {
    let callback = Callback::decode(FrameId(0x0999), &[0xde, 0xad], v13()).expect("decodes");
    assert_eq!(
        callback,
        Callback::Unknown {
            frame_id: FrameId(0x0999),
            parameters: vec![0xde, 0xad],
        }
    );
}

#[test]
fn a_truncated_known_callback_is_an_error_not_a_guess() {
    for len in 0..14 {
        let parameters = vec![0u8; len];
        assert!(
            Callback::decode(FrameId(FrameId::TRUST_CENTER_JOIN_HANDLER), &parameters, v13()).is_err(),
            "{len} bytes must not decode as a trust-centre join"
        );
    }
}

#[test]
fn an_incoming_message_takes_its_payload_whole() {
    let mut parameters = vec![0x00];
    parameters.extend_from_slice(&[
        0x00, 0x00, 0x04, 0x80, 0x00, 0x00, 0x40, 0x01, 0x00, 0x00, 0x27,
    ]);
    parameters.extend_from_slice(&[0xff, 0xe2, 0x41, 0x3a, 0xff, 0xff]);
    parameters.push(0x03);
    parameters.extend_from_slice(&[0x01, 0x02, 0x03]);

    let callback =
        Callback::decode(FrameId(FrameId::INCOMING_MESSAGE_HANDLER), &parameters, v13()).expect("decodes");
    match callback {
        Callback::IncomingMessage {
            aps_frame, payload, ..
        } => {
            assert_eq!(aps_frame.cluster_id, 0x8004);
            assert_eq!(payload, vec![0x01, 0x02, 0x03]);
        }
        other => panic!("expected an incoming message, got {other:?}"),
    }
}
