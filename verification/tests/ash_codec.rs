//! Framing, stuffing and reassembly.

use rsezsp::ash::codec::{
    crc16_all, encode, randomise, Decoded, Decoder, CANCEL, ESCAPE, FLAG, SUBSTITUTE, XOFF, XON,
};
use rsezsp::ash::{AshError, AshFrame};

#[test]
fn the_crc_matches_the_published_check_value() {
    assert_eq!(crc16_all(b"123456789"), 0x29b1);
}

#[test]
fn randomising_is_its_own_inverse() {
    let original = b"\x00\x00\x01\x02\x03\xff\xff\x7e\x7d".to_vec();
    let mut data = original.clone();
    randomise(&mut data);
    assert_ne!(data, original, "randomising must actually change the bytes");
    randomise(&mut data);
    assert_eq!(data, original);
}

#[test]
fn the_lfsr_produces_the_specified_sequence() {
    let mut data = [0u8; 6];
    randomise(&mut data);
    assert_eq!(data, [0x42, 0x21, 0xa8, 0x54, 0x2a, 0x15]);
}

#[test]
fn a_frame_round_trips_through_the_wire_form() {
    let frame = AshFrame::Data {
        frame_num: 1,
        ack_num: 0,
        retransmit: false,
        payload: vec![0x00, 0x00, 0x00, 0x13],
    };
    let bytes = encode(&frame).expect("encodes");
    assert_eq!(bytes.last(), Some(&FLAG), "a frame ends with the delimiter");

    let mut decoder = Decoder::new();
    let frames = decoder.feed(&bytes);
    assert_eq!(frames, vec![Decoded::Frame(frame)]);
}

#[test]
fn reserved_bytes_are_escaped_and_survive_the_round_trip() {
    let frame = AshFrame::Data {
        frame_num: 0,
        ack_num: 0,
        retransmit: false,
        payload: vec![FLAG, ESCAPE, XON, XOFF, SUBSTITUTE, CANCEL],
    };
    let bytes = encode(&frame).expect("encodes");
    let delimiters = bytes
        .iter()
        .fold(0_usize, |n, b| n + usize::from(*b == FLAG));
    assert_eq!(delimiters, 1);

    let mut decoder = Decoder::new();
    assert_eq!(decoder.feed(&bytes), vec![Decoded::Frame(frame)]);
}

#[test]
fn a_frame_split_across_reads_still_decodes() {
    let frame = AshFrame::Data {
        frame_num: 3,
        ack_num: 2,
        retransmit: false,
        payload: vec![0xaa; 20],
    };
    let bytes = encode(&frame).expect("encodes");
    let mut decoder = Decoder::new();
    let mut produced = Vec::new();
    for byte in &bytes {
        produced.extend(decoder.feed(&[*byte]));
    }
    assert_eq!(produced, vec![Decoded::Frame(frame)]);
}

#[test]
fn several_frames_in_one_read_all_decode() {
    let a = AshFrame::Ack {
        ack_num: 1,
        not_ready: false,
    };
    let b = AshFrame::Data {
        frame_num: 0,
        ack_num: 1,
        retransmit: false,
        payload: vec![0x01, 0x02],
    };
    let mut bytes = encode(&a).expect("a");
    bytes.extend(encode(&b).expect("b"));

    let mut decoder = Decoder::new();
    assert_eq!(
        decoder.feed(&bytes),
        vec![Decoded::Frame(a), Decoded::Frame(b)]
    );
}

#[test]
fn a_corrupted_frame_does_not_cost_the_next_one() {
    let good = AshFrame::Ack {
        ack_num: 4,
        not_ready: false,
    };
    let mut bytes = encode(&good).expect("encodes");
    let mut broken = encode(&good).expect("encodes");
    if let Some(first) = broken.first_mut() {
        *first ^= 0x01;
    }
    let mut stream = broken;
    stream.append(&mut bytes);

    let mut decoder = Decoder::new();
    let frames = decoder.feed(&stream);
    assert_eq!(frames.len(), 2, "both frames must be accounted for");
    assert!(
        matches!(
            frames.first(),
            Some(Decoded::Rejected(AshError::BadCrc { .. }))
        ),
        "got {:?}",
        frames.first()
    );
    assert_eq!(
        frames.get(1),
        Some(&Decoded::Frame(good)),
        "the frame after a corrupt one must still decode"
    );
}

#[test]
fn a_bad_crc_is_recoverable_by_nak_and_a_protocol_error_is_not() {
    assert!(
        AshError::BadCrc {
            computed: 1,
            carried: 2
        }
        .is_recoverable_by_nak()
    );
    assert!(
        !AshError::InvalidControl {
            control: 0xff,
            length: 0
        }
        .is_recoverable_by_nak()
    );
}

#[test]
fn a_cancel_discards_the_partial_frame_without_an_error() {
    let mut decoder = Decoder::new();
    assert!(decoder.feed(&[0x25, 0xaa, 0xbb]).is_empty());
    assert!(decoder.feed(&[CANCEL]).is_empty());

    let frame = AshFrame::Rst;
    let bytes = encode(&frame).expect("encodes");
    assert_eq!(decoder.feed(&bytes), vec![Decoded::Frame(frame)]);
}

#[test]
fn a_substitute_marks_the_frame_bad_but_still_consumes_it() {
    let mut decoder = Decoder::new();
    decoder.feed(&[0x25, 0xaa]);
    assert!(decoder.feed(&[SUBSTITUTE, 0xbb, 0xcc]).is_empty());
    let frames = decoder.feed(&[FLAG]);
    assert_eq!(frames, vec![Decoded::Rejected(AshError::Substituted)]);
    let frame = AshFrame::Ack {
        ack_num: 0,
        not_ready: false,
    };
    assert_eq!(
        decoder.feed(&encode(&frame).expect("encodes")),
        vec![Decoded::Frame(frame)]
    );
}

#[test]
fn flow_control_bytes_are_ignored_mid_frame() {
    let frame = AshFrame::Ack {
        ack_num: 2,
        not_ready: false,
    };
    let bytes = encode(&frame).expect("encodes");
    let mut stream = Vec::new();
    for (index, byte) in bytes.iter().enumerate() {
        if index == 1 {
            stream.push(XON);
        }
        stream.push(*byte);
    }
    let mut decoder = Decoder::new();
    assert_eq!(decoder.feed(&stream), vec![Decoded::Frame(frame)]);
}

#[test]
fn repeated_delimiters_produce_nothing_rather_than_errors() {
    let mut decoder = Decoder::new();
    assert!(decoder.feed(&[FLAG, FLAG, FLAG]).is_empty());
}

#[test]
fn a_frame_too_short_to_hold_a_crc_is_refused() {
    let mut decoder = Decoder::new();
    let frames = decoder.feed(&[0x25, 0xaa, FLAG]);
    assert!(matches!(
        frames.first(),
        Some(Decoded::Rejected(AshError::TooShort { .. }))
    ));
}

#[test]
fn a_stream_with_no_delimiter_does_not_grow_without_bound() {
    let mut decoder = Decoder::new();
    decoder.feed(&vec![0xaa; 10_000]);
    let frames = decoder.feed(&[FLAG]);
    assert!(
        matches!(
            frames.first(),
            Some(Decoded::Rejected(AshError::TooLong { .. }))
        ),
        "got {frames:?}"
    );
}

#[test]
fn an_escape_at_the_end_of_a_read_carries_into_the_next() {
    let frame = AshFrame::Data {
        frame_num: 0,
        ack_num: 0,
        retransmit: false,
        payload: vec![FLAG ^ 0x42],
    };
    let bytes = encode(&frame).expect("encodes");
    let escape_at = bytes
        .iter()
        .position(|b| *b == ESCAPE)
        .expect("a randomised payload byte of 0x7e must be escaped");

    let mut decoder = Decoder::new();
    let (head, tail) = bytes.split_at(escape_at + 1);
    assert!(decoder.feed(head).is_empty());
    assert_eq!(decoder.feed(tail), vec![Decoded::Frame(frame)]);
}
