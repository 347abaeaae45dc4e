//! Which frame answers which command.

use rsezsp::ezsp::correlation::{Classified, Correlator};
use rsezsp::ezsp::frame::{parse, Frame, FrameId, HeaderFormat};
use rsezsp::EzspError;

/// A response frame, as the NCP would send one.
fn response(sequence: u8, frame_id: FrameId, parameters: &[u8]) -> Vec<u8> {
    let mut bytes = vec![sequence, 0x80, 0x01];
    bytes.extend_from_slice(&frame_id.0.to_le_bytes());
    bytes.extend_from_slice(parameters);
    bytes
}

/// A callback frame: the response direction plus the async-callback bit.
fn callback(sequence: u8, frame_id: FrameId, parameters: &[u8]) -> Vec<u8> {
    let mut bytes = vec![sequence, 0x90, 0x01];
    bytes.extend_from_slice(&frame_id.0.to_le_bytes());
    bytes.extend_from_slice(parameters);
    bytes
}

fn frame_of(bytes: &[u8]) -> Frame<'_> {
    parse(bytes, HeaderFormat::Extended).expect("parses")
}

#[test]
fn a_callback_between_send_and_response_does_not_answer_the_command() {
    let mut correlator = Correlator::new();
    let sequence = correlator.begin(FrameId(FrameId::GET_EUI64)).expect("begins");

    let x = callback(0x40, FrameId(FrameId::INCOMING_MESSAGE_HANDLER), &[0x01]);
    assert!(matches!(
        correlator.classify(&frame_of(&x)),
        Classified::Callback {
            frame_id: FrameId(FrameId::INCOMING_MESSAGE_HANDLER),
            ..
        }
    ));
    assert!(
        correlator.is_busy(),
        "a callback must not resolve the pending command"
    );

    let answer = response(sequence, FrameId(FrameId::GET_EUI64), &[0xaa; 8]);
    assert!(matches!(
        correlator.classify(&frame_of(&answer)),
        Classified::Response { parameters } if parameters.len() == 8
    ));
    assert!(!correlator.is_busy());

    let y = callback(0x41, FrameId(FrameId::MESSAGE_SENT_HANDLER), &[]);
    assert!(matches!(
        correlator.classify(&frame_of(&y)),
        Classified::Callback { .. }
    ));
}

#[test]
fn a_callback_sharing_the_pending_sequence_is_still_a_callback() {
    let mut correlator = Correlator::new();
    let sequence = correlator.begin(FrameId(FrameId::GET_EUI64)).expect("begins");

    let colliding = callback(sequence, FrameId(FrameId::INCOMING_MESSAGE_HANDLER), &[0xff]);
    assert!(
        matches!(
            correlator.classify(&frame_of(&colliding)),
            Classified::Callback { .. }
        ),
        "the callback flag outranks a matching sequence"
    );
    assert!(correlator.is_busy());
}

#[test]
fn a_response_with_the_wrong_frame_id_is_not_accepted() {
    let mut correlator = Correlator::new();
    let sequence = correlator.begin(FrameId(FrameId::GET_EUI64)).expect("begins");

    let wrong = response(sequence, FrameId(FrameId::VERSION), &[0x0d, 0x02, 0x44, 0x74]);
    assert!(matches!(
        correlator.classify(&frame_of(&wrong)),
        Classified::Stale { .. }
    ));
    assert!(correlator.is_busy(), "the command is still outstanding");

    let right = response(sequence, FrameId(FrameId::GET_EUI64), &[0x11; 8]);
    assert!(matches!(
        correlator.classify(&frame_of(&right)),
        Classified::Response { .. }
    ));
}

#[test]
fn a_response_with_the_wrong_sequence_is_not_accepted() {
    let mut correlator = Correlator::new();
    let sequence = correlator.begin(FrameId(FrameId::GET_EUI64)).expect("begins");

    let wrong = response(sequence.wrapping_add(7), FrameId(FrameId::GET_EUI64), &[0x22; 8]);
    assert!(matches!(
        correlator.classify(&frame_of(&wrong)),
        Classified::Stale { .. }
    ));
    assert!(correlator.is_busy());
}

#[test]
fn an_unexpected_sequence_then_the_right_one_resolves_correctly() {
    let mut correlator = Correlator::new();
    let sequence = correlator.begin(FrameId(FrameId::SET_POLICY)).expect("begins");

    correlator.classify(&frame_of(&response(0xfe, FrameId(FrameId::SET_POLICY), &[0x00])));
    correlator.classify(&frame_of(&callback(
        0x02,
        FrameId(FrameId::STACK_STATUS_HANDLER),
        &[0x90],
    )));
    assert!(correlator.is_busy());

    let answer = response(sequence, FrameId(FrameId::SET_POLICY), &[0x00]);
    assert!(matches!(
        correlator.classify(&frame_of(&answer)),
        Classified::Response { .. }
    ));
    assert_eq!(
        correlator.stale_frames(),
        1,
        "the misaddressed response is counted, so a rising count can be seen"
    );
}

#[test]
fn our_own_command_echoed_back_is_not_its_own_answer() {
    let mut correlator = Correlator::new();
    let sequence = correlator.begin(FrameId(FrameId::GET_EUI64)).expect("begins");

    let mut echo = vec![sequence, 0x00, 0x01];
    echo.extend_from_slice(&FrameId::GET_EUI64.to_le_bytes());
    assert!(matches!(
        correlator.classify(&frame_of(&echo)),
        Classified::Stale { .. }
    ));
    assert!(correlator.is_busy());
}

#[test]
fn a_duplicate_response_does_not_answer_the_next_command() {
    let mut correlator = Correlator::new();
    let first = correlator.begin(FrameId(FrameId::GET_EUI64)).expect("begins");
    let answer = response(first, FrameId(FrameId::GET_EUI64), &[0x33; 8]);
    correlator.classify(&frame_of(&answer));

    let second = correlator.begin(FrameId(FrameId::SET_POLICY)).expect("begins");
    assert_ne!(first, second);
    assert!(
        matches!(
            correlator.classify(&frame_of(&answer)),
            Classified::Stale { .. }
        ),
        "a duplicate of the previous answer must not resolve the new command"
    );
    assert!(correlator.is_busy());
}

#[test]
fn a_second_concurrent_command_is_refused() {
    let mut correlator = Correlator::new();
    correlator.begin(FrameId(FrameId::GET_EUI64)).expect("begins");
    assert!(matches!(
        correlator.begin(FrameId(FrameId::SET_POLICY)),
        Err(EzspError::SequenceMismatch { .. })
    ));
}

#[test]
fn a_timeout_names_the_command_that_was_waiting() {
    let mut correlator = Correlator::new();
    correlator.begin(FrameId(FrameId::NETWORK_INIT)).expect("begins");
    match correlator.time_out() {
        Err(EzspError::Timeout { frame_id }) => {
            assert_eq!(frame_id, FrameId(FrameId::NETWORK_INIT));
        }
        other => panic!("expected a named timeout, got {other:?}"),
    }
    assert!(!correlator.is_busy());
    assert!(
        correlator.time_out().is_ok(),
        "a timeout with nothing pending is not an error"
    );
}

#[test]
fn a_reset_while_pending_reports_the_loss_and_rewinds_the_sequence() {
    let mut correlator = Correlator::new();
    correlator.begin(FrameId(FrameId::GET_EUI64)).expect("begins");
    correlator.begin(FrameId(FrameId::GET_EUI64)).ok();
    let _ = correlator.classify(&frame_of(&response(0, FrameId(FrameId::GET_EUI64), &[0x44; 8])));
    correlator.begin(FrameId(FrameId::SET_POLICY)).expect("begins");

    match correlator.on_ncp_reset() {
        Err(EzspError::NcpReset { frame_id }) => assert_eq!(frame_id, FrameId(FrameId::SET_POLICY)),
        other => panic!("expected a reset error, got {other:?}"),
    }
    assert_eq!(
        correlator.peek_sequence(),
        0,
        "the sequence must restart with the NCP's"
    );
    assert!(!correlator.is_busy());
}

#[test]
fn the_sequence_wraps_and_is_therefore_not_an_identifier_on_its_own() {
    let mut correlator = Correlator::new();
    for _ in 0..256 {
        let sequence = correlator.begin(FrameId(FrameId::GET_EUI64)).expect("begins");
        correlator.classify(&frame_of(&response(sequence, FrameId(FrameId::GET_EUI64), &[0; 8])));
    }
    assert_eq!(
        correlator.peek_sequence(),
        0,
        "after 256 commands the counter is back where it started"
    );
}
