//! Whole conversations over a scripted transport.
//!
//! Every interleaving worth worrying about is expressible as "these bytes
//! arrive in this order". A drained script is a deadline that passes.

use rsezsp::ash::{encode, AshError, AshFrame, Decoder};
use rsezsp::ash::{Connection, Decoded, Outbound};
use rsezsp::ezsp::callback::Callback;
use rsezsp::ezsp::codec::{EzspDecode, EzspEncode, Reader, Writer};
use rsezsp::ezsp::command::{
    ExportKey, GetEui64, NetworkInit, SendUnicast, Version, VersionResponse,
};
use rsezsp::ezsp::{Command, FrameId, ProtocolVersion};
use rsezsp::ncp::{map_transport, Progress, COMMAND_TIMEOUT_SECS, RESET_TIMEOUT_SECS};
use rsezsp::transport::fake::FakeTransport;
use rsezsp::transport::TransportError;
use rsezsp::types::aps::{ApsFrame, UnicastType};
use rsezsp::types::network::NetworkInitBitmask;
use rsezsp::types::security::SecurityManContext;
use rsezsp::{Eui64, EzspError, Ncp, NodeId, SlStatus};

/// A conversation and the script it runs against.
#[derive(Debug)]
struct Session {
    ncp: Ncp,
    port: FakeTransport,
}

impl Session {
    fn connect(port: FakeTransport) -> Result<Session, EzspError> {
        let mut session = Session {
            ncp: Ncp::new(),
            port,
        };
        session.reset()?;
        let mut version = Ncp::offer();
        loop {
            let answer = session.command(version)?;
            match session.ncp.negotiate(version, answer)? {
                Some(next) => version = next,
                None => break,
            }
        }
        Ok(session)
    }

    fn reset(&mut self) -> Result<(), EzspError> {
        let mut attempt = 0;
        loop {
            let bytes = self.ncp.next_reset(attempt)?;
            self.write(&bytes)?;
            let failed = self.pump(|ncp| ncp.is_connected()).is_err();
            if self.ncp.finish_reset(failed) {
                return Ok(());
            }
            attempt += 1;
        }
    }

    fn command<C: Command>(&mut self, command: C) -> Result<C::Response, EzspError> {
        let bytes = self.ncp.begin_command(&command)?;
        self.write(&bytes)?;
        let mut answer = None;
        let outcome = self.pump(|ncp| match ncp.progress() {
            Progress::Answered(parameters) => {
                answer = Some(parameters);
                true
            }
            Progress::Lost => true,
            Progress::Waiting => false,
        });
        self.ncp.conclude::<C>(answer, outcome)
    }

    fn poll(&mut self) -> Result<Vec<Callback>, EzspError> {
        self.pump(|ncp| ncp.has_callbacks())?;
        Ok(self.ncp.take_callbacks())
    }

    fn write(&mut self, bytes: &[u8]) -> Result<(), EzspError> {
        self.port.write(bytes).map_err(|e| map_transport(&e))
    }

    fn pump(&mut self, mut done: impl FnMut(&mut Ncp) -> bool) -> Result<(), EzspError> {
        loop {
            if done(&mut self.ncp) {
                return Ok(());
            }
            match self.port.read() {
                Some(Ok(bytes)) => self.consume(&bytes)?,
                Some(Err(error)) => return Err(map_transport(&error)),
                None => return Ok(()),
            }
        }
    }

    fn consume(&mut self, bytes: &[u8]) -> Result<(), EzspError> {
        for decoded in self.ncp.feed(bytes) {
            let received = self.ncp.on_decoded(&decoded)?;
            if let Some(reply) = received.reply {
                self.write(&reply)?;
            }
            if let Some(payload) = received.payload {
                self.ncp.dispatch(&payload);
            }
        }
        Ok(())
    }
}

/// An ASH data frame carrying an EZSP frame, with the given ASH numbering.
fn ash_data(frame_num: u8, ack_num: u8, ezsp: Vec<u8>) -> Vec<u8> {
    encode(&AshFrame::Data {
        frame_num,
        ack_num,
        retransmit: false,
        payload: ezsp,
    })
    .expect("encodes")
}

/// The NCP's `RSTACK`, which ends the reset handshake.
fn rstack() -> Vec<u8> {
    encode(&AshFrame::RstAck {
        version: 2,
        reset_code: 0x0b,
    })
    .expect("encodes")
}

/// A legacy-header `version` response: v13, mesh, stack 0x7440.
fn version_legacy(sequence: u8) -> Vec<u8> {
    vec![sequence, 0x80, 0x00, 0x0d, 0x02, 0x40, 0x74]
}

/// An extended-header `version` response.
fn version_extended(sequence: u8) -> Vec<u8> {
    vec![sequence, 0x80, 0x01, 0x00, 0x00, 0x0d, 0x02, 0x40, 0x74]
}

/// An extended-header `getEui64` response.
fn eui64_response(sequence: u8, address: Eui64) -> Vec<u8> {
    let mut bytes = vec![sequence, 0x80, 0x01, 0x26, 0x00];
    bytes.extend_from_slice(&address.to_wire());
    bytes
}

/// A `stackStatusHandler` callback.
fn stack_status(sequence: u8, status: u8) -> Vec<u8> {
    vec![sequence, 0x90, 0x01, 0x19, 0x00, status]
}

/// The bytes for a completed handshake and negotiation.
fn connected_prelude() -> Vec<Vec<u8>> {
    vec![
        rstack(),
        ash_data(0, 1, version_legacy(0)),
        ash_data(1, 2, version_extended(1)),
    ]
}

fn device() -> Eui64 {
    Eui64::new(0xa4c1_3814_2d62_ffff)
}

/// An extended-header response frame carrying `parameters`.
fn ncp_response(sequence: u8, frame_id: u16, parameters: &[u8]) -> Vec<u8> {
    let [id_lo, id_hi] = frame_id.to_le_bytes();
    let mut ezsp = vec![sequence, 0x80, 0x01, id_lo, id_hi];
    ezsp.extend_from_slice(parameters);
    ezsp
}

#[test]
fn a_command_response_is_correlated_over_the_full_stack() {
    let mut chunks = connected_prelude();
    chunks.push(ash_data(2, 3, eui64_response(2, device())));
    let transport = FakeTransport::with_chunks(chunks);

    let mut session = Session::connect(transport).expect("connects");
    assert_eq!(session.ncp.version(), ProtocolVersion::new(0x0d));

    let response = session.command(GetEui64).expect("getEui64");
    assert_eq!(response.eui64, device());
}

#[test]
fn a_callback_before_the_response_does_not_answer_the_command() {
    let mut chunks = connected_prelude();
    chunks.push(ash_data(2, 3, stack_status(0x40, 0x90)));
    chunks.push(ash_data(3, 3, eui64_response(2, device())));
    let transport = FakeTransport::with_chunks(chunks);

    let mut session = Session::connect(transport).expect("connects");
    let response = session.command(GetEui64).expect("getEui64");
    assert_eq!(
        response.eui64,
        device(),
        "the command must be answered by its own response, not by the callback"
    );

    let callbacks = session.ncp.take_callbacks();
    assert_eq!(callbacks.len(), 1, "and the callback must not be lost");
    assert!(matches!(
        callbacks.first(),
        Some(Callback::StackStatus { .. })
    ));
}

#[test]
fn a_callback_after_the_response_is_still_delivered() {
    let mut chunks = connected_prelude();
    chunks.push(ash_data(2, 3, eui64_response(2, device())));
    chunks.push(ash_data(3, 3, stack_status(0x41, 0x9c)));
    let transport = FakeTransport::with_chunks(chunks);

    let mut session = Session::connect(transport).expect("connects");
    session.command(GetEui64).expect("getEui64");

    let callbacks = session.poll().expect("polls");
    assert_eq!(
        callbacks,
        vec![Callback::StackStatus {
            status: SlStatus(0x9c)
        }]
    );
}

#[test]
fn a_wrong_sequence_then_the_right_one_resolves_correctly() {
    let mut chunks = connected_prelude();
    chunks.push(ash_data(2, 3, eui64_response(0xfe, Eui64::new(0xdead))));
    chunks.push(ash_data(3, 3, stack_status(0x42, 0x90)));
    chunks.push(ash_data(4, 3, eui64_response(2, device())));
    let transport = FakeTransport::with_chunks(chunks);

    let mut session = Session::connect(transport).expect("connects");
    let response = session.command(GetEui64).expect("getEui64");
    assert_eq!(
        response.eui64,
        device(),
        "a misaddressed response must not resolve the command"
    );
}

#[test]
fn a_response_for_the_wrong_command_does_not_resolve_this_one() {
    let mut chunks = connected_prelude();
    chunks.push(ash_data(2, 3, version_extended(2)));
    let transport = FakeTransport::with_chunks(chunks);

    let mut session = Session::connect(transport).expect("connects");
    let error = session
        .command(GetEui64)
        .expect_err("a version response must not answer getEui64");
    assert!(
        error.to_string().contains("timed out"),
        "the command should go unanswered rather than take the wrong frame: {error:?}"
    );
}

#[test]
fn poll_returns_empty_at_the_deadline_rather_than_failing() {
    let mut chunks = connected_prelude();
    chunks.push(ash_data(2, 3, eui64_response(2, device())));
    let transport = FakeTransport::with_chunks(chunks);

    let mut session = Session::connect(transport).expect("connects");
    session.command(GetEui64).expect("getEui64");

    let callbacks = session.poll().expect("polls");
    assert!(callbacks.is_empty());
}

#[test]
fn an_unanswered_command_times_out_naming_itself() {
    let transport = FakeTransport::with_chunks(connected_prelude());
    let mut session = Session::connect(transport).expect("connects");

    let error = session.command(GetEui64).expect_err("nothing answers");
    let text = error.to_string();
    assert!(
        text.contains("getEui64"),
        "the error must name the command that was waiting, got {text}"
    );
}

#[test]
fn negotiation_requires_the_second_exchange() {
    let transport = FakeTransport::with_chunks(vec![rstack(), ash_data(0, 1, version_legacy(0))]);
    assert!(
        Session::connect(transport).is_err(),
        "an incomplete negotiation must not be reported as connected"
    );
}

#[test]
fn a_frame_split_across_reads_is_still_correlated() {
    let mut bytes = Vec::new();
    for chunk in connected_prelude() {
        bytes.extend(chunk);
    }
    bytes.extend(ash_data(2, 3, eui64_response(2, device())));

    let transport = FakeTransport::with_chunks(bytes.into_iter().map(|b| vec![b]).collect());
    let mut session = Session::connect(transport).expect("connects");
    let response = session.command(GetEui64).expect("getEui64");
    assert_eq!(response.eui64, device());
}

#[test]
fn a_command_is_refused_when_the_negotiated_version_lacks_it() {
    let transport = FakeTransport::with_chunks(connected_prelude());
    let mut session = Session::connect(transport).expect("connects");
    let error = session
        .command(Version {
            desired: ProtocolVersion::new(ProtocolVersion::PREFERRED),
        })
        .expect_err("nothing answers");
    assert!(!error.to_string().contains("not available"), "{error:?}");
    assert_eq!(FrameId::VERSION, 0x0000);
}

/// `getChildData` — read one entry from the NCP's child table. Frame id
/// `0x004a`. A command that the library does not have.
struct GetChildData {
    /// Which entry.
    index: u8,
}

/// What the NCP answers with.
#[derive(Debug)]
struct GetChildDataResponse {
    status: SlStatus,
    eui64: Eui64,
    node_id: NodeId,
    device_type: u8,
}

impl EzspEncode for GetChildData {
    fn encode(&self, out: &mut Writer) -> Result<(), EzspError> {
        out.u8(self.index);
        Ok(())
    }
}

impl EzspDecode for GetChildDataResponse {
    fn decode(input: &mut Reader<'_>) -> Result<Self, EzspError> {
        let status = SlStatus::decode(input)?;
        Ok(Self {
            status,
            eui64: Eui64::decode(input)?,
            node_id: NodeId::decode(input)?,
            device_type: input.u8()?,
        })
    }
}

impl Command for GetChildData {
    type Response = GetChildDataResponse;
    const ID: u16 = 0x004a;
}

/// A command that only newer firmware has.
struct OnlyOnNewFirmware;

impl EzspEncode for OnlyOnNewFirmware {
    fn encode(&self, _out: &mut Writer) -> Result<(), EzspError> {
        Ok(())
    }
}

impl Command for OnlyOnNewFirmware {
    type Response = ();
    const ID: u16 = 0x0123;

    fn is_available(version: ProtocolVersion) -> bool {
        version.has_wide_status()
    }
}

#[test]
fn a_command_defined_outside_this_crate_round_trips_through_the_runtime() {
    let mut chunks = connected_prelude();
    chunks.push(ash_data(
        2,
        3,
        ncp_response(
            2,
            GetChildData::ID,
            &[
                0x00, 0xff, 0xff, 0x62, 0x2d, 0x14, 0x38, 0xc1, 0xa4, 0x41, 0x3a, 0x02,
            ],
        ),
    ));

    let mut session = Session::connect(FakeTransport::with_chunks(chunks)).expect("connects");
    assert_eq!(session.ncp.version(), ProtocolVersion::new(0x0d));
    assert_eq!(session.ncp.stack_version(), 0x7440);

    let response = session
        .command(GetChildData { index: 0 })
        .expect("a command defined outside the crate must be sendable");

    assert!(response.status.is_ok());
    assert_eq!(response.eui64, Eui64::new(0xa4c1_3814_2d62_ffff));
    assert_eq!(response.node_id, NodeId(0x3a41));
    assert_eq!(response.device_type, 0x02);
}

#[test]
fn an_externally_defined_command_can_restrict_itself_to_a_version_range() {
    let mut session =
        Session::connect(FakeTransport::with_chunks(connected_prelude())).expect("connects");
    let error = session
        .command(OnlyOnNewFirmware)
        .expect_err("v13 does not have this command");
    assert!(
        matches!(error, EzspError::UnsupportedCommand { .. }),
        "expected an unsupported-command error, got {error:?}"
    );
}

/// What was written to the port, frame by frame.
fn sent_frames(session: &Session) -> Vec<Decoded> {
    let mut decoder = Decoder::new();
    decoder.feed(session.port.written())
}

/// The EZSP frames among what was written.
fn sent_payloads(session: &Session) -> Vec<Vec<u8>> {
    sent_frames(session)
        .into_iter()
        .filter_map(|decoded| match decoded {
            Decoded::Frame(AshFrame::Data { payload, .. }) => Some(payload),
            _ => None,
        })
        .collect()
}

#[test]
fn only_the_first_version_goes_out_legacy() {
    let mut session =
        Session::connect(FakeTransport::with_chunks(connected_prelude())).expect("connects");
    let _ = session.command(GetEui64);
    assert_eq!(
        sent_payloads(&session),
        vec![
            vec![0x00, 0x00, 0x00, 0x13],
            vec![0x01, 0x00, 0x01, 0x00, 0x00, 0x0d],
            vec![0x02, 0x00, 0x01, 0x26, 0x00],
        ]
    );
    assert_eq!(
        sent_frames(&session).first(),
        Some(&Decoded::Frame(AshFrame::Rst))
    );
}

#[test]
fn every_received_data_frame_is_acknowledged() {
    let session =
        Session::connect(FakeTransport::with_chunks(connected_prelude())).expect("connects");
    let acks: Vec<Decoded> = sent_frames(&session)
        .into_iter()
        .filter(|decoded| matches!(decoded, Decoded::Frame(AshFrame::Ack { .. })))
        .collect();
    assert_eq!(
        acks,
        vec![
            Decoded::Frame(AshFrame::Ack {
                ack_num: 1,
                not_ready: false
            }),
            Decoded::Frame(AshFrame::Ack {
                ack_num: 2,
                not_ready: false
            }),
        ]
    );
}

#[test]
fn a_version_that_matches_the_offer_needs_one_exchange() {
    let chunks = vec![
        rstack(),
        ash_data(0, 1, vec![0x00, 0x80, 0x00, 0x13, 0x02, 0x10, 0x80]),
    ];
    let session = Session::connect(FakeTransport::with_chunks(chunks)).expect("connects");
    assert_eq!(session.ncp.version(), ProtocolVersion::new(0x13));
    assert_eq!(session.ncp.stack_version(), 0x8010);
    assert_eq!(sent_payloads(&session).len(), 1);
}

#[test]
fn an_unsupported_version_or_stack_is_refused() {
    let older = vec![
        rstack(),
        ash_data(0, 1, vec![0x00, 0x80, 0x00, 0x0c, 0x02, 0x40, 0x74]),
    ];
    assert_eq!(
        Session::connect(FakeTransport::with_chunks(older)).expect_err("refused"),
        EzspError::UnsupportedVersion {
            negotiated: ProtocolVersion::new(0x0c)
        }
    );
    let other_stack = vec![
        rstack(),
        ash_data(0, 1, vec![0x00, 0x80, 0x00, 0x0d, 0x01, 0x40, 0x74]),
    ];
    assert_eq!(
        Session::connect(FakeTransport::with_chunks(other_stack)).expect_err("refused"),
        EzspError::UnsupportedVersion {
            negotiated: ProtocolVersion::new(0x0d)
        }
    );
}

#[test]
fn an_ncp_that_changes_its_mind_is_refused() {
    let agreed = Version {
        desired: ProtocolVersion::new(0x0d),
    };
    let second = VersionResponse {
        protocol_version: ProtocolVersion::new(0x0e),
        stack_type: 2,
        stack_version: 0x7440,
    };
    assert_eq!(
        Ncp::judge_agreement(agreed, second),
        Err(EzspError::UnsupportedVersion {
            negotiated: ProtocolVersion::new(0x0e)
        })
    );
}

#[test]
fn a_reset_while_a_command_is_pending_is_reported_as_a_reset() {
    let mut chunks = connected_prelude();
    chunks.push(rstack());
    let mut session = Session::connect(FakeTransport::with_chunks(chunks)).expect("connects");
    assert_eq!(
        session.command(GetEui64).expect_err("lost"),
        EzspError::NcpReset {
            frame_id: FrameId(FrameId::GET_EUI64)
        }
    );
}

#[test]
fn an_error_frame_while_a_command_is_pending_is_reported_as_a_reset() {
    let mut chunks = connected_prelude();
    chunks.push(
        encode(&AshFrame::Error {
            version: 2,
            error_code: 0x51,
        })
        .expect("encodes"),
    );
    let mut session = Session::connect(FakeTransport::with_chunks(chunks)).expect("connects");
    assert_eq!(
        session.command(GetEui64).expect_err("lost"),
        EzspError::NcpReset {
            frame_id: FrameId(FrameId::GET_EUI64)
        }
    );
    assert_eq!(
        session.command(GetEui64).expect_err("not connected"),
        EzspError::Ash(AshError::NotConnected)
    );
}

#[test]
fn a_nak_has_the_command_sent_again() {
    let mut chunks = connected_prelude();
    chunks.push(
        encode(&AshFrame::Nak {
            ack_num: 2,
            not_ready: false,
        })
        .expect("encodes"),
    );
    chunks.push(ash_data(2, 3, eui64_response(2, device())));
    let mut session = Session::connect(FakeTransport::with_chunks(chunks)).expect("connects");
    assert_eq!(session.command(GetEui64).expect("answers").eui64, device());
    assert!(sent_frames(&session).contains(&Decoded::Frame(AshFrame::Data {
        frame_num: 2,
        ack_num: 2,
        retransmit: true,
        payload: vec![0x02, 0x00, 0x01, 0x26, 0x00],
    })));
}

#[test]
fn a_corrupt_frame_is_answered_with_a_nak_and_the_resend_is_taken() {
    let mut chunks = connected_prelude();
    let mut broken = ash_data(2, 3, eui64_response(2, device()));
    broken[0] ^= 0x01;
    chunks.push(broken);
    chunks.push(ash_data(2, 3, eui64_response(2, device())));
    let mut session = Session::connect(FakeTransport::with_chunks(chunks)).expect("connects");
    assert_eq!(session.command(GetEui64).expect("answers").eui64, device());
    assert!(sent_frames(&session).contains(&Decoded::Frame(AshFrame::Nak {
        ack_num: 2,
        not_ready: false,
    })));
}

#[test]
fn trailing_bytes_in_an_answer_are_reported() {
    let mut chunks = connected_prelude();
    let mut answer = eui64_response(2, device());
    answer.extend_from_slice(&[0x00, 0x00]);
    chunks.push(ash_data(2, 3, answer));
    let mut session = Session::connect(FakeTransport::with_chunks(chunks)).expect("connects");
    assert_eq!(
        session.command(GetEui64).expect_err("two bytes too many"),
        EzspError::TrailingBytes {
            frame_id: FrameId(FrameId::GET_EUI64),
            extra: 2
        }
    );
}

#[test]
fn a_short_answer_is_reported() {
    let mut chunks = connected_prelude();
    chunks.push(ash_data(2, 3, ncp_response(2, FrameId::GET_EUI64, &[1, 2, 3])));
    let mut session = Session::connect(FakeTransport::with_chunks(chunks)).expect("connects");
    assert_eq!(
        session.command(GetEui64).expect_err("five bytes short"),
        EzspError::TruncatedFrame {
            needed: 8,
            available: 3
        }
    );
}

#[test]
fn a_transport_failure_names_its_reason() {
    let mut session =
        Session::connect(FakeTransport::with_chunks(connected_prelude())).expect("connects");
    session.port.fail_next_read(TransportError::Io {
        operation: "read",
        reason: "unplugged".into(),
    });
    assert_eq!(
        session.command(GetEui64).expect_err("fails"),
        EzspError::Transport {
            reason: "read failed: unplugged".into()
        }
    );
    assert_eq!(
        session.command(GetEui64).expect_err("still outstanding"),
        EzspError::SequenceMismatch { sequence: 2 }
    );
}

#[test]
fn an_unanswered_reset_gives_up_after_five_attempts() {
    let mut ncp = Ncp::new();
    let rst = encode(&AshFrame::Rst).expect("encodes");
    for attempt in 0..5 {
        assert_eq!(ncp.next_reset(attempt).expect("sends"), rst);
        assert!(!ncp.finish_reset(false));
    }
    assert_eq!(
        ncp.next_reset(5),
        Err(EzspError::Ash(AshError::ResetFailed))
    );
    assert_eq!(
        Session::connect(FakeTransport::new()).expect_err("nothing answers"),
        EzspError::Ash(AshError::ResetFailed)
    );
}

#[test]
fn a_frame_too_long_for_the_link_is_refused() {
    let mut session =
        Session::connect(FakeTransport::with_chunks(connected_prelude())).expect("connects");
    let unicast = |len: usize| SendUnicast {
        unicast_type: UnicastType::Direct,
        index_or_destination: 0x1234,
        aps_frame: ApsFrame::default(),
        message_tag: 1,
        message: vec![0; len],
    };
    // 5 header bytes, 14 before the tag, the tag, the length.
    let mut fresh = Session::connect(FakeTransport::with_chunks(connected_prelude()))
        .expect("connects");
    assert_eq!(
        session.command(unicast(198)).expect_err("219 bytes"),
        EzspError::FrameTooLong {
            length: 219,
            limit: 218
        }
    );
    assert_eq!(
        fresh.ncp.begin_command(&unicast(197)).expect_err("218 bytes"),
        EzspError::Ash(AshError::TooLong {
            length: 221,
            maximum: 133
        })
    );
}

#[test]
fn inbound_frames_are_hidden_while_a_key_is_asked_for() {
    let mut session =
        Session::connect(FakeTransport::with_chunks(connected_prelude())).expect("connects");
    assert!(!session.ncp.hides_inbound());
    session
        .ncp
        .begin_command(&ExportKey {
            context: SecurityManContext::network_key(),
        })
        .expect("encodes");
    assert!(session.ncp.hides_inbound());
    session.ncp.give_up(FrameId(ExportKey::ID), Ok(()));
    assert!(session.ncp.hides_inbound(), "the answer may still come");
    session
        .ncp
        .begin_command(&NetworkInit {
            bitmask: NetworkInitBitmask::default(),
        })
        .expect("encodes");
    assert!(session.ncp.hides_inbound(), "also while another command waits");
    session.ncp.dispatch(&ncp_response(1, ExportKey::ID, &[0xab; 20]));
    session.ncp.dispatch(&stack_status(2, 0x90));
    assert!(session.ncp.hides_inbound(), "neither was the answer");
    session.ncp.dispatch(&ncp_response(2, ExportKey::ID, &[0xab; 20]));
    assert!(!session.ncp.hides_inbound(), "the late answer has come");
}

#[test]
fn a_reset_ends_the_wait_for_a_late_key() {
    let mut session =
        Session::connect(FakeTransport::with_chunks(connected_prelude())).expect("connects");
    session
        .ncp
        .begin_command(&ExportKey {
            context: SecurityManContext::network_key(),
        })
        .expect("encodes");
    session.ncp.give_up(FrameId(ExportKey::ID), Ok(()));
    assert!(session.ncp.hides_inbound());
    session.consume(&rstack()).expect("consumes");
    assert!(!session.ncp.hides_inbound());
}

#[test]
fn an_answer_nobody_took_does_not_answer_the_next_command() {
    let mut session =
        Session::connect(FakeTransport::with_chunks(connected_prelude())).expect("connects");
    session.ncp.begin_command(&GetEui64).expect("encodes");
    session.ncp.dispatch(&eui64_response(2, device()));
    let error = session
        .ncp
        .conclude::<GetEui64>(None, Err(EzspError::NotConnected));
    assert!(error.is_err());
    session
        .ncp
        .begin_command(&NetworkInit {
            bitmask: NetworkInitBitmask::default(),
        })
        .expect("encodes");
    assert_eq!(session.ncp.progress(), Progress::Waiting);
    session.ncp.dispatch(&ncp_response(3, NetworkInit::ID, &[0x93]));
    assert_eq!(session.ncp.progress(), Progress::Answered(vec![0x93]));
}

#[test]
fn a_finished_reset_drops_an_answer_nobody_took() {
    let mut session =
        Session::connect(FakeTransport::with_chunks(connected_prelude())).expect("connects");
    session.ncp.begin_command(&GetEui64).expect("encodes");
    session.ncp.dispatch(&eui64_response(2, device()));
    session.port.push_chunk(rstack());
    session.reset().expect("resets");
    assert_eq!(session.ncp.take_response(), None);
}

#[test]
fn a_callback_during_the_bootstrap_is_read_extended() {
    let mut session = Session {
        ncp: Ncp::new(),
        port: FakeTransport::with_chunks(vec![rstack()]),
    };
    session.reset().expect("resets");
    session.ncp.begin_command(&Ncp::offer()).expect("encodes");
    let mut callback = stack_status(0x40, 0x90);
    callback.extend_from_slice(&[0x00, 0x00, 0x00]);
    session.ncp.dispatch(&callback);
    assert_eq!(
        session.ncp.take_callbacks(),
        vec![Callback::StackStatus {
            status: SlStatus(0x90)
        }]
    );
    assert_eq!(session.ncp.progress(), Progress::Waiting);
    session.ncp.dispatch(&version_legacy(0));
    assert_eq!(
        session.ncp.progress(),
        Progress::Answered(vec![0x0d, 0x02, 0x40, 0x74])
    );
}

#[test]
fn a_reset_is_waited_for_longer_than_a_command() {
    assert!(RESET_TIMEOUT_SECS > COMMAND_TIMEOUT_SECS);
}

#[test]
fn a_callback_that_does_not_decode_is_skipped() {
    let mut chunks = connected_prelude();
    chunks.push(ash_data(2, 3, vec![0x07, 0x90, 0x01, 0x24, 0x00, 0x01]));
    chunks.push(ash_data(3, 3, stack_status(0x08, 0x90)));
    let mut session = Session::connect(FakeTransport::with_chunks(chunks)).expect("connects");
    assert_eq!(
        session.poll().expect("polls"),
        vec![Callback::StackStatus {
            status: SlStatus(0x90)
        }]
    );
}

#[test]
fn a_callback_after_an_unanswered_bootstrap_is_read_extended() {
    let mut session = Session {
        ncp: Ncp::new(),
        port: FakeTransport::with_chunks(vec![rstack()]),
    };
    session.reset().expect("resets");
    let error = session.command(Ncp::offer()).expect_err("nothing answers");
    assert!(matches!(error, EzspError::Timeout { .. }));
    // Nothing is negotiated yet, so a status has the width of the offer.
    let mut callback = stack_status(0x01, 0x90);
    callback.extend_from_slice(&[0x00, 0x00, 0x00]);
    session.port.push_chunk(ash_data(0, 1, callback));
    assert_eq!(
        session.poll().expect("polls"),
        vec![Callback::StackStatus {
            status: SlStatus(0x90)
        }]
    );
}

#[test]
fn what_one_end_sends_the_other_delivers_and_acknowledges() {
    let mut host = Connection::new();
    let mut peer = Connection::new();
    let reset = AshFrame::RstAck {
        version: 2,
        reset_code: 0,
    };
    host.on_frame(&reset);
    peer.on_frame(&reset);
    for round in 0u8..20 {
        let frame = host.send_data(vec![round]).expect("sends");
        let (payload, answer) = peer.on_frame(&frame);
        assert_eq!(payload, Some(vec![round]));
        match answer {
            Outbound::Send(ack) => {
                host.on_frame(&ack);
            }
            Outbound::Nothing => panic!("data must be acknowledged"),
        }
        assert_eq!(host.in_flight(), 0);
    }
}

#[test]
fn chunks_come_back_in_order_and_writes_are_recorded() {
    let mut transport = FakeTransport::with_chunks(vec![vec![0x01], vec![0x02, 0x03]]);
    transport.write(&[0xaa]).expect("writes");
    assert_eq!(transport.read(), Some(Ok(vec![0x01])));
    assert_eq!(transport.read(), Some(Ok(vec![0x02, 0x03])));
    assert_eq!(transport.written(), &[0xaa]);
    assert!(transport.is_drained());
}

#[test]
fn a_drained_but_open_transport_pends_rather_than_closing() {
    let mut transport = FakeTransport::new();
    let read = transport.read();
    assert!(read.is_none(), "a drained open transport must not resolve");
}

#[test]
fn an_explicitly_closed_transport_reports_closed() {
    let mut transport = FakeTransport::new();
    transport.close();
    assert_eq!(transport.read(), Some(Err(TransportError::Closed)));
}

#[test]
fn a_scripted_failure_surfaces_once() {
    let mut transport = FakeTransport::with_chunks(vec![vec![0x01]]);
    transport.fail_next_read(TransportError::Io {
        operation: "read",
        reason: "scripted".into(),
    });
    assert!(matches!(transport.read(), Some(Err(_))));
    assert_eq!(
        transport.read(),
        Some(Ok(vec![0x01])),
        "the failure must not consume the queued chunk"
    );
}

#[test]
fn pushed_chunks_come_last() {
    let mut transport = FakeTransport::with_chunks(vec![vec![0x01]]);
    transport.push_chunk(vec![0x02]);
    assert!(!transport.is_drained());
    assert_eq!(transport.read(), Some(Ok(vec![0x01])));
    assert_eq!(transport.read(), Some(Ok(vec![0x02])));
    assert_eq!(transport.read(), None);
}
