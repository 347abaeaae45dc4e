//! What holds of the library as a whole, on concrete values.

use rsezsp::ash::codec::{
    crc16, crc16_all, encode, is_reserved, randomise, Decoded, Decoder, CANCEL, ESCAPE, FLAG,
    SUBSTITUTE, XOFF, XON,
};
use rsezsp::ash::state::{Connection, ConnectionState, Outbound};
use rsezsp::ash::{AshError, AshFrame};
use rsezsp::ezsp::callback::Callback;
use rsezsp::ezsp::codec::{EzspDecode, EzspEncode, Reader, Writer};
use rsezsp::ezsp::command::{
    AddEndpoint, Command, ExportKey, FormNetwork, GetConfigurationValue, GetNetworkKeyInfo,
    GetNetworkKeyInfoResponse, GetValue, ImportTransientKey, ImportTransientKeyResponse,
    NetworkInit, NetworkState, NetworkStateResponse, SendMulticast, SetConfigurationValue,
    SetInitialSecurityState, SetManufacturerCode, SetPolicy, Version,
};
use rsezsp::ezsp::correlation::{Classified, Correlator, Pending};
use rsezsp::ezsp::frame::{
    parameters, parse, write_header, Direction, FrameControl, FrameId, HeaderFormat,
};
use rsezsp::types::aps::{ApsFrame, ApsOptions, UnicastType};
use rsezsp::types::network::{
    ConfigId, Decision, NetworkInitBitmask, NetworkParameters, NetworkStatus, PolicyId, ValueId,
};
use rsezsp::types::security::{
    InitialSecurityBitmask, InitialSecurityState, SecurityKey, SecurityKeyType,
    SecurityManContext, SecurityManFlags,
};
use rsezsp::{Eui64, EzspError, NodeId, ProtocolVersion, SlStatus};

fn v13() -> ProtocolVersion {
    ProtocolVersion::new(0x0d)
}

fn v14() -> ProtocolVersion {
    ProtocolVersion::new(0x0e)
}

fn encoded<E: EzspEncode>(value: &E, version: ProtocolVersion) -> Vec<u8> {
    let mut out = Writer::new(version);
    value.encode(&mut out).expect("encodes");
    out.into_vec()
}

fn data(frame_num: u8, payload: Vec<u8>) -> AshFrame {
    AshFrame::Data {
        frame_num,
        ack_num: 0,
        retransmit: false,
        payload,
    }
}

#[test]
fn the_crc_register_starts_and_steps_as_published() {
    assert_eq!(crc16_all(&[]), 0xffff);
    assert_eq!(crc16(0xffff, 0x00), 0xe1f0);
    assert_eq!(crc16(0, 0x80), 0x9188);
}

#[test]
fn a_reset_request_is_these_bytes() {
    assert_eq!(
        encode(&AshFrame::Rst).expect("encodes"),
        vec![0xc0, 0x38, 0xbc, 0x7e]
    );
}

#[test]
fn the_six_reserved_bytes_are_the_only_ones() {
    let reserved: Vec<u8> = (0u8..=255).filter(|b| is_reserved(*b)).collect();
    assert_eq!(reserved, vec![XON, XOFF, SUBSTITUTE, CANCEL, ESCAPE, FLAG]);
}

#[test]
fn randomising_leaves_the_length_alone() {
    let mut empty: [u8; 0] = [];
    randomise(&mut empty);
    let mut one = [0x42];
    randomise(&mut one);
    assert_eq!(one, [0x00]);
}

#[test]
fn every_payload_length_up_to_the_limit_round_trips() {
    for len in 0..=128usize {
        let payload: Vec<u8> = (0..len).map(|i| (i * 7) as u8).collect();
        let frame = data(5, payload);
        let bytes = encode(&frame).expect("encodes");
        assert_eq!(bytes.iter().filter(|b| **b == FLAG).count(), 1);
        assert_eq!(Decoder::new().feed(&bytes), vec![Decoded::Frame(frame)]);
    }
}

#[test]
fn data_fields_past_the_limit_are_refused() {
    assert!(encode(&data(0, vec![0; 128])).is_ok());
    for len in [129usize, 130] {
        assert_eq!(
            encode(&data(0, vec![0; len])),
            Err(AshError::TooLong {
                length: len,
                maximum: 128
            })
        );
    }
    assert_eq!(
        encode(&data(0, vec![0; 131])),
        Err(AshError::TooLong {
            length: 134,
            maximum: 133
        })
    );
}

#[test]
fn numbers_are_reduced_on_the_way_through() {
    let frame = AshFrame::Data {
        frame_num: 13,
        ack_num: 255,
        retransmit: true,
        payload: vec![1],
    };
    let bytes = encode(&frame).expect("encodes");
    assert_eq!(
        Decoder::new().feed(&bytes),
        vec![Decoded::Frame(AshFrame::Data {
            frame_num: 5,
            ack_num: 7,
            retransmit: true,
            payload: vec![1],
        })]
    );
}

#[test]
fn chunking_does_not_change_what_is_decoded() {
    let mut stream = vec![0x25, 0xaa, FLAG, 0x11];
    stream.extend(encode(&data(1, vec![FLAG, ESCAPE, CANCEL])).expect("encodes"));
    stream.extend([SUBSTITUTE, 0x01, 0x02, FLAG, CANCEL]);
    stream.extend(encode(&data(2, vec![3; 40])).expect("encodes"));
    let whole = Decoder::new().feed(&stream);
    assert_eq!(whole.len(), 4);
    for size in 1..stream.len() {
        let mut decoder = Decoder::new();
        let mut pieces = Vec::new();
        for chunk in stream.chunks(size) {
            pieces.extend(decoder.feed(chunk));
        }
        assert_eq!(pieces, whole, "in reads of {size}");
    }
}

#[test]
fn every_damaged_byte_is_refused() {
    // A frame in which nothing needs escaping: the wire holds it byte for byte.
    let bytes = (0u8..=255)
        .map(|fill| encode(&data(2, vec![fill; 6])).expect("encodes"))
        .find(|bytes| bytes.iter().filter(|b| is_reserved(**b)).count() == 1)
        .expect("one of them escapes nothing");
    for at in 0..bytes.len() - 1 {
        for value in 0u8..=255 {
            if value == bytes[at] || is_reserved(value) {
                continue;
            }
            let mut damaged = bytes.clone();
            damaged[at] = value;
            assert!(matches!(
                Decoder::new().feed(&damaged).first(),
                Some(Decoded::Rejected(AshError::BadCrc { .. }))
            ));
        }
    }
}

#[test]
fn a_rejected_frame_is_sent_again_and_delivered() {
    let mut sender = Connection::new();
    let mut receiver = Connection::new();
    let reset = AshFrame::RstAck {
        version: 2,
        reset_code: 0,
    };
    sender.on_frame(&reset);
    receiver.on_frame(&reset);
    sender.send_data(vec![7, 8]).expect("sends");
    let nak = match receiver.on_decode_failure(&AshError::Substituted) {
        Outbound::Send(nak) => nak,
        Outbound::Nothing => panic!("damage must be rejected"),
    };
    match sender.on_frame(&nak).1 {
        Outbound::Send(again) => {
            assert_eq!(
                again,
                AshFrame::Data {
                    frame_num: 0,
                    ack_num: 0,
                    retransmit: true,
                    payload: vec![7, 8],
                }
            );
            assert_eq!(receiver.on_frame(&again).0, Some(vec![7, 8]));
        }
        Outbound::Nothing => panic!("a rejected frame must be sent again"),
    }
}

#[test]
fn a_delimiter_judges_the_bytes_since_the_last_one() {
    let long = vec![0xaa; 134];
    let runs: [(Vec<u8>, Vec<Decoded>); 7] = [
        (vec![], vec![]),
        (vec![XON, ESCAPE, XOFF], vec![]),
        (
            vec![0x25, XON, 0xaa],
            vec![Decoded::Rejected(AshError::TooShort {
                length: 2,
                minimum: 3,
            })],
        ),
        (
            vec![0x25, SUBSTITUTE],
            vec![Decoded::Rejected(AshError::Substituted)],
        ),
        (
            long.clone(),
            vec![Decoded::Rejected(AshError::TooLong {
                length: 134,
                maximum: 133,
            })],
        ),
        (
            [long.clone(), vec![SUBSTITUTE]].concat(),
            vec![Decoded::Rejected(AshError::Substituted)],
        ),
        (
            // The escape reaches past the flow control, to 0x38.
            vec![0xc0, ESCAPE, XON, 0x18 ^ 0x20, 0xbc],
            vec![Decoded::Rejected(AshError::BadCrc {
                computed: 0x38bc,
                carried: 0x18bc,
            })],
        ),
    ];
    for (run, expected) in runs {
        let mut decoder = Decoder::new();
        decoder.feed(&[0x01, 0x02, CANCEL]);
        let mut stream = run.clone();
        stream.push(FLAG);
        assert_eq!(decoder.feed(&stream), expected, "{run:?}");
    }
}

#[test]
fn a_decoder_that_is_reset_forgets_the_partial_frame() {
    let mut decoder = Decoder::default();
    assert!(decoder.feed(&[0x25, ESCAPE]).is_empty());
    decoder.reset();
    let frame = AshFrame::Nak {
        ack_num: 3,
        not_ready: true,
    };
    assert_eq!(
        decoder.feed(&encode(&frame).expect("encodes")),
        vec![Decoded::Frame(frame)]
    );
}

#[test]
fn an_unknown_control_byte_is_refused() {
    for control in [0xc3u8, 0xe0, 0xff] {
        assert_eq!(
            AshFrame::from_parts(control, &[]),
            Err(AshError::InvalidControl { control, length: 0 })
        );
    }
}

#[test]
fn frames_acknowledge_what_they_carry() {
    assert_eq!(data(3, vec![]).acknowledges(), Some(0));
    let nak = AshFrame::Nak {
        ack_num: 6,
        not_ready: false,
    };
    assert_eq!(nak.acknowledges(), Some(6));
    assert_eq!(AshFrame::Rst.acknowledges(), None);
}

#[test]
fn an_acknowledgement_counts_around_the_wrap() {
    let mut connection = Connection::default();
    connection.on_frame(&AshFrame::RstAck {
        version: 2,
        reset_code: 0,
    });
    let ack = |ack_num| AshFrame::Ack {
        ack_num,
        not_ready: false,
    };
    for round in 0..6u8 {
        connection.send_data(vec![round]).expect("sends");
    }
    connection.on_frame(&ack(6));
    assert_eq!(connection.in_flight(), 0);
    for round in 0..5u8 {
        connection.send_data(vec![round]).expect("sends");
    }
    assert_eq!(connection.next_tx_frame(), 3);
    connection.on_frame(&ack(1));
    assert_eq!(connection.in_flight(), 2, "6, 7 and 0 are acknowledged");
    connection.on_frame(&ack(5));
    assert_eq!(connection.in_flight(), 0, "a number outside the window drains");
    assert_eq!(connection.retransmit_oldest(), Outbound::Nothing);
}

#[test]
fn a_full_window_says_how_full_it_is() {
    let mut connection = Connection::new();
    connection.on_frame(&AshFrame::RstAck {
        version: 2,
        reset_code: 0,
    });
    for _ in 0..7 {
        connection.send_data(vec![0]).expect("sends");
    }
    assert_eq!(
        connection.send_data(vec![0]),
        Err(AshError::WindowFull {
            outstanding: 7,
            limit: 7
        })
    );
}

#[test]
fn a_host_reset_frame_from_the_other_end_means_nothing() {
    let mut connection = Connection::new();
    assert_eq!(
        connection.on_frame(&AshFrame::Rst),
        (None, Outbound::Nothing)
    );
    assert_eq!(connection.state(), ConnectionState::Disconnected);
}

#[test]
fn ash_errors_read_as_sentences() {
    let texts = [
        (
            AshError::BadCrc {
                computed: 0x0a1b,
                carried: 0xffff,
            },
            "ASH CRC mismatch: computed 0x0a1b, frame carried 0xffff",
        ),
        (
            AshError::TooShort {
                length: 2,
                minimum: 3,
            },
            "ASH frame is 2 bytes, shorter than the minimum 3",
        ),
        (
            AshError::TooLong {
                length: 134,
                maximum: 133,
            },
            "ASH frame is 134 bytes, longer than the maximum 133",
        ),
        (
            AshError::InvalidControl {
                control: 0x0f,
                length: 10,
            },
            "ASH control byte 0x0f is not a valid frame of 10 bytes",
        ),
        (
            AshError::Cancelled,
            "the NCP cancelled the frame in progress",
        ),
        (AshError::Substituted, "the NCP reported a corrupted frame"),
        (
            AshError::NcpError {
                version: 2,
                code: 0x51,
            },
            "the NCP reported error code 0x51 (ASH version 2)",
        ),
        (
            AshError::NcpReset {
                version: 2,
                code: 0x0b,
            },
            "the NCP reset with code 0x0b (ASH version 2)",
        ),
        (
            AshError::ResetFailed,
            "the NCP did not answer a reset within the allowed attempts",
        ),
        (
            AshError::OutOfSequence {
                received: 3,
                expected: 0,
            },
            "ASH frame number 3 arrived while expecting 0",
        ),
        (AshError::NotConnected, "ASH is not connected"),
        (AshError::Timeout, "ASH timed out waiting for the NCP"),
        (
            AshError::WindowFull {
                outstanding: 7,
                limit: 7,
            },
            "the ASH send window is full (7 of 7 frames unacknowledged)",
        ),
    ];
    for (error, text) in texts {
        assert_eq!(error.to_string(), text);
    }
}

#[test]
fn ezsp_errors_read_as_sentences() {
    let id = FrameId(FrameId::GET_EUI64);
    let texts = [
        (
            EzspError::TruncatedFrame {
                needed: 4,
                available: 1,
            },
            "frame ended early: needed 4 more bytes, 1 available",
        ),
        (
            EzspError::FrameTooLong {
                length: 219,
                limit: 218,
            },
            "frame is 219 bytes; EZSP permits at most 218",
        ),
        (
            EzspError::PayloadTooLong {
                length: 300,
                limit: 255,
            },
            "payload is 300 bytes; a length prefix holds at most 255",
        ),
        (
            EzspError::MalformedHeader { reason: "odd" },
            "malformed frame header: odd",
        ),
        (
            EzspError::TrailingBytes {
                frame_id: id,
                extra: 3,
            },
            "3 bytes left after decoding the response to getEui64 (0x0026)",
        ),
        (
            EzspError::UnsupportedVersion {
                negotiated: ProtocolVersion::new(12),
            },
            "the NCP speaks EZSP v12, which this build does not support",
        ),
        (
            EzspError::UnsupportedCommand {
                frame_id: FrameId(0x0123),
                version: v13(),
            },
            "frame 0x0123 is not available in EZSP v13",
        ),
        (
            EzspError::UnexpectedResponse {
                expected: id,
                actual: FrameId(FrameId::VERSION),
            },
            "expected a response to getEui64 (0x0026), got version (0x0000)",
        ),
        (
            EzspError::SequenceMismatch { sequence: 200 },
            "no command is waiting on sequence 200",
        ),
        (
            EzspError::UnknownEnum {
                name: "Kind",
                value: 0x1ff,
            },
            "Kind has no variant for 0x1ff",
        ),
        (
            EzspError::Status {
                status: SlStatus(SlStatus::NETWORK_DOWN),
            },
            "the NCP returned NETWORK_DOWN (0x0b14)",
        ),
        (
            EzspError::Timeout { frame_id: id },
            "getEui64 (0x0026) timed out",
        ),
        (
            EzspError::NcpReset { frame_id: id },
            "the NCP reset while getEui64 (0x0026) was pending",
        ),
        (EzspError::NotConnected, "not connected to an NCP"),
        (
            EzspError::Transport {
                reason: "the transport closed".into(),
            },
            "transport failure: the transport closed",
        ),
        (
            EzspError::from(AshError::Timeout),
            "ASH: ASH timed out waiting for the NCP",
        ),
    ];
    for (error, text) in texts {
        assert_eq!(error.to_string(), text);
    }
    assert!(EzspError::Ash(AshError::Timeout).is_transient());
    assert!(EzspError::Transport {
        reason: String::new()
    }
    .is_transient());
    assert!(!EzspError::NotConnected.is_transient());
}

#[test]
fn statuses_and_versions_read_as_text() {
    assert_eq!(SlStatus(SlStatus::OK).to_string(), "OK (0x0000)");
    assert_eq!(
        SlStatus(SlStatus::INVALID_PARAMETER).to_string(),
        "INVALID_PARAMETER (0x0021)"
    );
    assert_eq!(SlStatus(0x8765_4321).to_string(), "status 0x87654321");
    assert_eq!(ProtocolVersion::new(19).to_string(), "v19");
    assert_eq!(ProtocolVersion::new(0).to_string(), "v0");
    assert_eq!(ProtocolVersion::new(105).raw(), 105);
}

#[test]
fn every_named_frame_keeps_its_name_and_number() {
    let names = [
        (FrameId::VERSION, "version"),
        (FrameId::ADD_ENDPOINT, "addEndpoint"),
        (FrameId::NETWORK_INIT, "networkInit"),
        (FrameId::PERMIT_JOINING, "permitJoining"),
        (FrameId::GET_EUI64, "getEui64"),
        (FrameId::SEND_UNICAST, "sendUnicast"),
        (FrameId::SET_CONFIGURATION_VALUE, "setConfigurationValue"),
        (FrameId::SET_POLICY, "setPolicy"),
        (FrameId::IMPORT_TRANSIENT_KEY, "importTransientKey"),
        (FrameId::STACK_STATUS_HANDLER, "stackStatusHandler"),
        (FrameId::MESSAGE_SENT_HANDLER, "messageSentHandler"),
        (FrameId::INCOMING_MESSAGE_HANDLER, "incomingMessageHandler"),
        (FrameId::TRUST_CENTER_JOIN_HANDLER, "trustCenterJoinHandler"),
    ];
    for (id, name) in names {
        assert_eq!(FrameId(id).name(), Some(name));
    }
    assert_eq!(FrameId(FrameId::EXPORT_KEY).name(), None);
    assert_eq!(FrameId(FrameId::EXPORT_KEY).to_string(), "frame 0x0114");
    assert!(FrameId(0xff).fits_legacy());
    assert!(!FrameId(0x100).fits_legacy());
}

#[test]
fn command_ids_are_the_documented_numbers() {
    assert_eq!(Version::ID, 0x0000);
    assert_eq!(NetworkInit::ID, 0x0017);
    assert_eq!(AddEndpoint::ID, 0x0002);
    assert_eq!(SetConfigurationValue::ID, 0x0053);
    assert_eq!(SetPolicy::ID, 0x0055);
    assert_eq!(ImportTransientKey::ID, 0x0111);
    assert_eq!(GetConfigurationValue::ID, 0x0052);
    assert_eq!(GetValue::ID, 0x00aa);
    assert_eq!(SetManufacturerCode::ID, 0x0015);
    assert_eq!(FormNetwork::ID, 0x001e);
    assert_eq!(SetInitialSecurityState::ID, 0x0068);
    assert_eq!(ExportKey::ID, 0x0114);
    assert_eq!(NetworkState::ID, 0x0018);
    assert_eq!(SendMulticast::ID, 0x0038);
    assert_eq!(GetNetworkKeyInfo::ID, 0x0116);
}

#[test]
fn headers_read_back_as_written() {
    for format in [HeaderFormat::Legacy, HeaderFormat::Extended] {
        let mut out = Writer::new(v13());
        write_header(&mut out, 0x2a, FrameId(0x34), format).expect("expressible");
        assert_eq!(out.len(), format.byte_len());
        out.bytes(&[1, 2, 3]);
        let bytes = out.into_vec();
        let frame = parse(&bytes, format).expect("parses");
        assert_eq!(frame.sequence, 0x2a);
        assert_eq!(frame.frame_id, FrameId(0x34));
        assert_eq!(frame.control, FrameControl::command());
        assert_eq!(frame.parameters, &[1, 2, 3]);
        let mut reader = parameters(&frame, v14());
        assert_eq!(reader.version(), v14());
        assert_eq!(reader.peek_rest(), &[1, 2, 3]);
        assert_eq!(reader.take_rest(), &[1, 2, 3]);
        assert!(reader.is_empty());
    }
}

#[test]
fn an_unknown_frame_format_is_refused() {
    for high in [0x00u8, 0x02, 0x03, 0xfc] {
        assert!(matches!(
            parse(&[0x01, 0x80, high, 0x26, 0x00], HeaderFormat::Extended),
            Err(EzspError::MalformedHeader { .. })
        ));
    }
    assert!(parse(&[0x01, 0x80, 0xfd, 0x26, 0x00], HeaderFormat::Extended).is_ok());
}

#[test]
fn control_bits_are_read_one_by_one() {
    let all = FrameControl::from_low_byte(0x97);
    assert_eq!(all.direction, Direction::Response);
    assert!(all.is_callback && all.callback_pending && all.overflow && all.truncated);
    assert_eq!(all.raw_low, 0x97);
    assert_eq!(all.to_low_byte(), 0x80);
    let none = FrameControl::from_low_byte(0x68);
    assert_eq!(none.direction, Direction::Command);
    assert!(!none.is_callback && !none.callback_pending && !none.overflow && !none.truncated);
    assert_eq!(none.to_low_byte(), 0x00);
}

#[test]
fn a_failed_length_prefixed_read_consumes_nothing() {
    let mut reader = Reader::new(&[0x05, 1, 2], v13());
    assert_eq!(
        reader.length_prefixed(),
        Err(EzspError::TruncatedFrame {
            needed: 5,
            available: 2
        })
    );
    assert_eq!(reader.peek_rest(), &[0x05, 1, 2]);
    assert_eq!(reader.take(3), Ok(&[0x05, 1, 2][..]));
    assert_eq!(
        reader.length_prefixed(),
        Err(EzspError::TruncatedFrame {
            needed: 1,
            available: 0
        })
    );
    let mut writer = Writer::new(v13());
    writer.length_prefixed(&[7, 8]).expect("short");
    assert_eq!(writer.as_slice(), &[2, 7, 8]);
    assert!(!writer.is_empty());
    assert_eq!(writer.version(), v13());
    assert!(writer.length_prefixed(&[0; 256]).is_err());
    assert_eq!(writer.len(), 3, "a refused payload leaves nothing behind");
}

#[test]
fn primitives_encode_and_decode() {
    assert_eq!(encoded(&0x12u8, v13()), vec![0x12]);
    assert_eq!(encoded(&0x1234u16, v13()), vec![0x34, 0x12]);
    assert!(encoded(&(), v13()).is_empty());
    let mut reader = Reader::new(&[0x34, 0x12, 0x56], v13());
    assert_eq!(u16::decode(&mut reader), Ok(0x1234));
    assert_eq!(u8::decode(&mut reader), Ok(0x56));
    assert_eq!(<()>::decode(&mut reader), Ok(()));
    assert_eq!(reader.array::<2>(), Err(EzspError::TruncatedFrame {
        needed: 2,
        available: 0
    }));
}

#[test]
fn a_late_answer_does_not_answer_the_next_command() {
    let mut correlator = Correlator::default();
    let first = correlator.begin(FrameId(0x26)).expect("begins");
    assert_eq!(
        correlator.pending(),
        Some(Pending {
            sequence: 0,
            frame_id: FrameId(0x26)
        })
    );
    assert_eq!(correlator.pending_frame_id(), Some(FrameId(0x26)));
    assert!(correlator.time_out().is_err());
    correlator.begin(FrameId(0x26)).expect("begins");
    let late = [first, 0x80, 0x01, 0x26, 0x00];
    let frame = parse(&late, HeaderFormat::Extended).expect("parses");
    assert_eq!(
        correlator.classify(&frame),
        Classified::Stale {
            frame_id: FrameId(0x26),
            sequence: first
        }
    );
    assert_eq!(correlator.stale_frames(), 1);
}

#[test]
fn an_address_is_the_same_in_both_directions() {
    let wire = [1, 2, 3, 4, 5, 6, 7, 8];
    let address = Eui64::from_wire(wire);
    assert_eq!(address.raw(), 0x0807_0605_0403_0201);
    assert_eq!(address.to_wire(), wire);
    assert_eq!(Eui64::default(), Eui64::new(0));
    assert_eq!(Eui64::new(1).to_string(), "0x0000000000000001");
    assert_eq!(NodeId(NodeId::BROADCAST_ROUTERS).to_string(), "0xfffc");
    assert_eq!(encoded(&NodeId(0x3a41), v13()), vec![0x41, 0x3a]);
}

#[test]
fn bitmasks_combine() {
    let options = ApsOptions(ApsOptions::ENCRYPTION).union(ApsOptions(ApsOptions::SOURCE_EUI64));
    assert_eq!(options, ApsOptions(0x0420));
    assert!(options.contains(ApsOptions(ApsOptions::ENCRYPTION)));
    assert!(!options.contains(ApsOptions(ApsOptions::RETRY)));
    let init = NetworkInitBitmask(NetworkInitBitmask::PARENT_INFO_IN_TOKEN).union(
        NetworkInitBitmask(NetworkInitBitmask::END_DEVICE_REJOIN_ON_REBOOT),
    );
    assert_eq!(encoded(&init, v13()), vec![0x03, 0x00]);
    let hashed =
        InitialSecurityBitmask(InitialSecurityBitmask::TRUST_CENTER_USES_HASHED_LINK_KEY);
    let global = InitialSecurityBitmask(InitialSecurityBitmask::TRUST_CENTER_GLOBAL_LINK_KEY);
    assert!(hashed.contains(global));
    assert_eq!(hashed.union(global), hashed);
}

#[test]
fn unicast_types_are_numbered() {
    let types = [
        UnicastType::Direct,
        UnicastType::ViaAddressTable,
        UnicastType::ViaBinding,
        UnicastType::Multicast,
        UnicastType::Broadcast,
    ];
    for (raw, kind) in types.into_iter().enumerate() {
        assert_eq!(usize::from(kind.raw()), raw);
        assert_eq!(encoded(&kind, v13()), vec![kind.raw()]);
    }
}

#[test]
fn contexts_and_keys_round_trip() {
    let context = SecurityManContext {
        core_key_type: SecurityKeyType(SecurityKeyType::TC_LINK),
        key_index: 3,
        derived_type: 4,
        eui64: Eui64::new(0x0102_0304_0506_0708),
        multi_network_index: 5,
        flags: SecurityManFlags(SecurityManFlags::EUI_IS_VALID),
        psa_key_alg_permission: 0xdead_beef,
    };
    let bytes = encoded(&context, v14());
    assert_eq!(bytes.len(), 17);
    let mut reader = Reader::new(&bytes, v14());
    assert_eq!(SecurityManContext::decode(&mut reader), Ok(context));
    assert!(reader.is_empty());
    let key = SecurityKey::new([9; 16]);
    let bytes = encoded(&key, v14());
    let mut reader = Reader::new(&bytes, v14());
    assert_eq!(SecurityKey::decode(&mut reader), Ok(key));
    assert!(SecurityKey::decode(&mut Reader::new(&[0; 15], v14())).is_err());
}

#[test]
fn an_initial_security_state_is_forty_three_bytes() {
    let command = SetInitialSecurityState {
        state: InitialSecurityState {
            bitmask: InitialSecurityBitmask(0x1234),
            preconfigured_key: SecurityKey::new([0x0a; 16]),
            network_key: SecurityKey::new([0x0b; 16]),
            network_key_sequence_number: 7,
            preconfigured_trust_center_eui64: Eui64::new(1),
        },
    };
    let bytes = encoded(&command, v13());
    assert_eq!(bytes.len(), 43);
    assert_eq!(&bytes[..2], &[0x34, 0x12]);
    assert_eq!(&bytes[2..18], &[0x0a; 16]);
    assert_eq!(&bytes[18..34], &[0x0b; 16]);
    assert_eq!(bytes[34], 7);
    assert_eq!(&bytes[35..], &[1, 0, 0, 0, 0, 0, 0, 0]);
    let debug = format!("{command:?}");
    assert!(debug.contains("network_key: SecurityKey(redacted)"), "{debug}");
}

#[test]
fn small_commands_encode_their_fields() {
    assert_eq!(
        encoded(
            &SetConfigurationValue {
                config_id: ConfigId(ConfigId::STACK_PROFILE),
                value: 0x0102,
            },
            v13()
        ),
        vec![0x0c, 0x02, 0x01]
    );
    let decision = Decision(Decision::ALLOW_JOINS).union(Decision(
        Decision::ALLOW_UNSECURED_REJOINS,
    ));
    assert_eq!(
        encoded(
            &SetPolicy {
                policy_id: PolicyId(PolicyId::TRUST_CENTER),
                decision,
            },
            v13()
        ),
        vec![0x00, 0x03]
    );
    assert_eq!(
        encoded(
            &GetConfigurationValue {
                config_id: ConfigId(ConfigId::MAX_HOPS)
            },
            v13()
        ),
        vec![0x10]
    );
    assert_eq!(
        encoded(
            &GetValue {
                value_id: ValueId(0x11)
            },
            v13()
        ),
        vec![0x11]
    );
    assert_eq!(encoded(&SetManufacturerCode { code: 0x1286 }, v13()), vec![0x86, 0x12]);
    assert!(encoded(&NetworkState, v13()).is_empty());
    assert!(encoded(&GetNetworkKeyInfo, v13()).is_empty());
}

#[test]
fn a_formed_network_is_its_parameters() {
    let parameters = NetworkParameters {
        extended_pan_id: [1, 2, 3, 4, 5, 6, 7, 8],
        pan_id: 0x1a62,
        radio_tx_power: -128,
        radio_channel: 11,
        join_method: 2,
        nwk_manager_id: 0xabcd,
        nwk_update_id: 9,
        channels: 0x0000_0800,
    };
    assert_eq!(
        encoded(&FormNetwork { parameters }, v14()),
        vec![
            1, 2, 3, 4, 5, 6, 7, 8, 0x62, 0x1a, 0x80, 11, 2, 0xcd, 0xab, 9, 0x00, 0x08, 0, 0,
        ]
    );
}

#[test]
fn a_multicast_carries_its_group_in_the_header() {
    let command = SendMulticast {
        aps_frame: ApsFrame {
            group_id: 0x0b0a,
            ..ApsFrame::default()
        },
        hops: 1,
        nonmember_radius: 2,
        message_tag: 0x0403,
        message: vec![5],
    };
    assert_eq!(
        encoded(&command, v13()),
        vec![0, 0, 0, 0, 0, 0, 0, 0, 0x0a, 0x0b, 0, 1, 2, 3, 1, 5]
    );
    assert_eq!(
        encoded(&command, v14()),
        vec![0, 0, 0, 0, 0, 0, 0, 0, 0x0a, 0x0b, 0, 1, 2, 3, 4, 1, 5]
    );
}

#[test]
fn a_refused_endpoint_names_the_list_that_is_too_long() {
    let command = AddEndpoint {
        endpoint: 1,
        profile_id: 2,
        device_id: 3,
        app_flags: 4,
        input_clusters: vec![0; 255],
        output_clusters: vec![0; 256],
    };
    let mut out = Writer::new(v13());
    assert_eq!(
        command.encode(&mut out),
        Err(EzspError::PayloadTooLong {
            length: 256,
            limit: 255
        })
    );
    assert_eq!(out.as_slice(), &[1, 2, 0, 3, 0, 4]);
}

#[test]
fn security_manager_answers_are_wide_at_every_version() {
    let bytes = [0x02, 0, 0, 0];
    for version in [v13(), v14()] {
        let mut reader = Reader::new(&bytes, version);
        let response = ImportTransientKeyResponse::decode(&mut reader).expect("decodes");
        assert_eq!(response.status, SlStatus(2));
        assert!(reader.is_empty());
    }
    let bytes = [0, 0, 0, 0, 1, 0, 2, 3, 0x78, 0x56, 0x34, 0x12];
    let mut reader = Reader::new(&bytes, v13());
    assert_eq!(
        GetNetworkKeyInfoResponse::decode(&mut reader),
        Ok(GetNetworkKeyInfoResponse {
            status: SlStatus(SlStatus::OK),
            network_key_set: true,
            alternate_network_key_set: false,
            network_key_sequence_number: 2,
            alt_network_key_sequence_number: 3,
            network_key_frame_counter: 0x1234_5678,
        })
    );
    let mut reader = Reader::new(&[0x02], v14());
    assert_eq!(
        NetworkStateResponse::decode(&mut reader).expect("one byte").state,
        NetworkStatus(2)
    );
}

#[test]
fn callbacks_keep_their_id_and_drop_what_follows_the_payload() {
    let mut parameters = vec![0x04];
    parameters.extend_from_slice(&[0; 11]);
    parameters.extend_from_slice(&[200, 0x80, 0x34, 0x12, 1, 2, 2, 0xaa, 0xbb, 0xcc]);
    let id = FrameId(FrameId::INCOMING_MESSAGE_HANDLER);
    let callback = Callback::decode(id, &parameters, v13()).expect("decodes");
    assert_eq!(callback.frame_id(), id);
    assert_eq!(
        callback,
        Callback::IncomingMessage {
            message_type: 4,
            aps_frame: ApsFrame::default(),
            last_hop_lqi: 200,
            last_hop_rssi: -128,
            sender: NodeId(0x1234),
            binding_index: 1,
            address_index: 2,
            payload: vec![0xaa, 0xbb],
        }
    );
    assert_eq!(
        Callback::decode(id, &parameters[..20], v13()),
        Err(EzspError::TruncatedFrame {
            needed: 2,
            available: 1
        })
    );
    let unknown = Callback::decode(FrameId(0x1234), &[1], v14()).expect("carried");
    assert_eq!(unknown.frame_id(), FrameId(0x1234));
}

#[test]
fn a_delivery_report_cut_short_anywhere_is_refused() {
    let mut parameters = vec![0x00, 0x41, 0x3a];
    parameters.extend_from_slice(&[0; 11]);
    parameters.extend_from_slice(&[0x02, 0x00, 0x66, 0x00, 0x00, 0x00, 0x01, 0xee]);
    let id = FrameId(FrameId::MESSAGE_SENT_HANDLER);
    assert!(Callback::decode(id, &parameters, v14()).is_ok());
    for len in 0..parameters.len() {
        assert!(Callback::decode(id, &parameters[..len], v14()).is_err());
    }
}
