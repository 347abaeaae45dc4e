//! Regression tests built from captured hardware behaviour.
//!
//! Hardware: Sonoff ZBDongle-E (EFR32MG21), `EmberZNet` 7.4.4, EZSP 13,
//! stack version 0x7440.

use rsezsp::ash::{encode, AshFrame, Decoded, Decoder};
use rsezsp::ezsp::callback::Callback;
use rsezsp::ezsp::codec::{EzspDecode, Reader};
use rsezsp::ezsp::command::{GetEui64Response, NetworkInitResponse, VersionResponse};
use rsezsp::ezsp::frame::{parse, HeaderFormat};
use rsezsp::ezsp::{Direction, FrameId, ProtocolVersion};
use rsezsp::types::network::NodeId;
use rsezsp::types::status::SlStatus;
use rsezsp::Eui64;

fn v13() -> ProtocolVersion {
    ProtocolVersion::new(0x0d)
}

/// The coordinator this was captured from.
fn coordinator() -> Eui64 {
    Eui64::new(0x94a0_81ff_fed9_6e5c)
}

#[test]
fn the_bootstrap_version_exchange_decodes_as_captured() {
    let received = [0x00, 0x80, 0x00, 0x0d, 0x02, 0x40, 0x74];
    let frame = parse(&received, HeaderFormat::Legacy).expect("parses");

    assert_eq!(frame.sequence, 0);
    assert_eq!(frame.control.direction, Direction::Response);
    assert!(!frame.control.is_callback);
    assert_eq!(frame.frame_id, FrameId(FrameId::VERSION));

    let mut reader = Reader::new(frame.parameters, v13());
    let response = VersionResponse::decode(&mut reader).expect("decodes");
    assert_eq!(response.protocol_version, v13());
    assert_eq!(response.stack_type, 2, "2 is EmberZNet mesh");
    assert_eq!(response.stack_version, 0x7440);
}

#[test]
fn version_negotiation_takes_two_exchanges_when_the_ncp_runs_an_older_version() {
    let rejection = [0x02, 0x80, 0x01, 0x58, 0x00, 0x30];
    let frame = parse(&rejection, HeaderFormat::Extended).expect("parses");

    assert_eq!(
        frame.frame_id,
        FrameId(0x0058),
        "0x0058 is INVALID_COMMAND, the NCP's way of saying it did not accept the frame"
    );
    assert!(
        !frame.control.is_callback,
        "it is a response to our command, not an unsolicited event"
    );
    assert_eq!(
        frame.parameters,
        [0x30],
        "0x30 is ERROR_VERSION_NOT_SET: negotiation was never completed"
    );
}

#[test]
fn the_second_version_exchange_uses_the_extended_header() {
    let received = [0x01, 0x80, 0x01, 0x00, 0x00, 0x0d, 0x02, 0x40, 0x74];
    let frame = parse(&received, HeaderFormat::Extended).expect("parses");
    assert_eq!(frame.frame_id, FrameId(FrameId::VERSION));

    let mut reader = Reader::new(frame.parameters, v13());
    let response = VersionResponse::decode(&mut reader).expect("decodes");
    assert_eq!(response.protocol_version, v13());
}

#[test]
fn get_eui64_decodes_the_coordinator_address_from_the_capture() {
    let received = [
        0x02, 0x80, 0x01, 0x26, 0x00, 0x5c, 0x6e, 0xd9, 0xfe, 0xff, 0x81, 0xa0, 0x94,
    ];
    let frame = parse(&received, HeaderFormat::Extended).expect("parses");
    assert_eq!(frame.frame_id, FrameId(FrameId::GET_EUI64));

    let mut reader = Reader::new(frame.parameters, v13());
    let response = GetEui64Response::decode(&mut reader).expect("decodes");
    assert_eq!(response.eui64, coordinator());
    assert!(
        reader.is_empty(),
        "an EUI64 is exactly eight bytes; anything left over means a wrong width"
    );
}

#[test]
fn network_init_reports_not_joined_when_the_stack_profile_is_unset() {
    let received = [0x03, 0x80, 0x01, 0x17, 0x00, 0x93];
    let frame = parse(&received, HeaderFormat::Extended).expect("parses");
    assert_eq!(frame.frame_id, FrameId(FrameId::NETWORK_INIT));

    let mut reader = Reader::new(frame.parameters, v13());
    let response = NetworkInitResponse::decode(&mut reader).expect("decodes");
    assert_eq!(
        response.status,
        SlStatus(0x93),
        "one byte on EZSP 13: a four-byte read here would consume the frame \
         and report success"
    );
    assert!(!response.status.is_ok());
}

#[test]
fn network_init_reports_success_once_the_stack_profile_is_set() {
    let received = [0x04, 0x80, 0x01, 0x17, 0x00, 0x00];
    let frame = parse(&received, HeaderFormat::Extended).expect("parses");
    let mut reader = Reader::new(frame.parameters, v13());
    let response = NetworkInitResponse::decode(&mut reader).expect("decodes");
    assert!(response.status.is_ok());
}

#[test]
fn the_stack_status_callback_from_a_resumed_network_decodes_as_a_callback() {
    let received = [0x05, 0x90, 0x01, 0x19, 0x00, 0x90];
    let frame = parse(&received, HeaderFormat::Extended).expect("parses");

    assert!(
        frame.control.is_callback,
        "0x10 in the low control byte is what keeps this out of the response path"
    );
    assert_eq!(frame.frame_id, FrameId(FrameId::STACK_STATUS_HANDLER));

    let callback = Callback::decode(frame.frame_id, frame.parameters, v13()).expect("decodes");
    assert_eq!(
        callback,
        Callback::StackStatus {
            status: SlStatus(0x90)
        }
    );
}

#[test]
fn a_full_ash_round_trip_carries_a_captured_ezsp_frame() {
    let ezsp = vec![0x00, 0x00, 0x00, 0x13];
    let frame = AshFrame::Data {
        frame_num: 0,
        ack_num: 0,
        retransmit: false,
        payload: ezsp.clone(),
    };
    let wire = encode(&frame).expect("encodes");

    let mut decoder = Decoder::new();
    let frames = decoder.feed(&wire);
    assert_eq!(frames.len(), 1);
    match frames.first() {
        Some(Decoded::Frame(AshFrame::Data { payload, .. })) => {
            assert_eq!(*payload, ezsp, "the payload must survive randomisation");
        }
        other => panic!("expected a data frame, got {other:?}"),
    }
}

#[test]
fn the_rstack_that_ends_the_reset_handshake_decodes() {
    let frame = AshFrame::RstAck {
        version: 2,
        reset_code: 0x0b,
    };
    let wire = encode(&frame).expect("encodes");
    let mut decoder = Decoder::new();
    assert_eq!(decoder.feed(&wire), vec![Decoded::Frame(frame)]);
}

#[test]
fn an_incoming_message_from_the_valve_keeps_its_payload_separate_from_the_radio_metadata() {
    let parameters = [
        0x00,
        0x04, 0x01, 0x11, 0xfc, 0x01, 0x01, 0x40, 0x01, 0x00, 0x00, 0x28,
        0xff, 0xe2,
        0x41, 0x3a,
        0xff, 0xff,
        0x1e,
        0x18, 0xd6, 0x0a, 0x1f, 0x50, 0x48, 0x20, 0x15, 0x00, 0x02, 0x00, 0x01, 0x00, 0x32, 0x2d,
        0xc3, 0xf1, 0x32, 0x2d, 0xc6, 0x49, 0x32, 0x2d, 0xc4, 0x0b, 0x01, 0x00, 0x00, 0x00, 0x00,
    ];

    let callback = Callback::decode(FrameId(FrameId::INCOMING_MESSAGE_HANDLER), &parameters, v13())
        .expect("the capture must decode");
    let Callback::IncomingMessage {
        sender,
        last_hop_rssi,
        payload,
        ..
    } = callback
    else {
        panic!("expected an incoming message, got {callback:?}");
    };

    assert_eq!(sender, NodeId(0x3a41), "the valve");
    assert_eq!(last_hop_rssi, -30, "signed; as u8 this reads 226");
    assert_eq!(payload.len(), 30, "exactly what the length prefix promised");
    assert_eq!(
        payload.first().copied(),
        Some(0x18),
        "a ZCL frame control byte, not the LQI that used to be here"
    );
}

#[test]
fn the_message_sent_report_for_a_delivered_unicast_decodes_as_captured() {
    let parameters = [
        0x00,
        0x41, 0x3a,
        0x04, 0x01, 0x06, 0x00, 0x01, 0x01, 0x40, 0x01, 0x00, 0x00, 0x9b,
        0x01,
        0x00,
        0x00,
    ];

    let callback = Callback::decode(FrameId(FrameId::MESSAGE_SENT_HANDLER), &parameters, v13())
        .expect("the capture must decode");
    let Callback::MessageSent {
        index_or_destination,
        aps_frame,
        message_tag,
        status,
        ..
    } = callback
    else {
        panic!("expected a message-sent report, got {callback:?}");
    };

    assert_eq!(index_or_destination, 0x3a41);
    assert_eq!(aps_frame.sequence, 155, "as returned by sendUnicast");
    assert_eq!(message_tag, 1, "read as 0 when the offsets were wrong");
    assert!(status.is_ok(), "read as 0x41 when the offsets were wrong");
}
