//! The ASH connection.

use rsezsp::ash::frame::AshFrame;
use rsezsp::ash::state::{
    Connection, ConnectionState, Outbound, MAX_RESET_ATTEMPTS, MAX_RETRANSMITS, MAX_WINDOW,
};
use rsezsp::ash::AshError;

/// A connection that has completed the handshake.
fn connected() -> Connection {
    let mut connection = Connection::new();
    assert_eq!(connection.begin_reset(), Outbound::Send(AshFrame::Rst));
    connection.on_frame(&AshFrame::RstAck {
        version: 2,
        reset_code: 0x0b,
    });
    assert!(connection.is_connected());
    connection
}

#[test]
fn data_is_refused_before_the_handshake_completes() {
    let mut connection = Connection::new();
    assert!(matches!(
        connection.send_data(vec![0x00]),
        Err(AshError::NotConnected)
    ));

    connection.begin_reset();
    assert!(
        connection.send_data(vec![0x00]).is_err(),
        "a reset that has not been answered is not a connection"
    );
}

#[test]
fn the_handshake_resets_both_counters() {
    let mut connection = connected();
    connection.send_data(vec![0x01]).expect("sends");
    connection.send_data(vec![0x02]).expect("sends");
    assert_eq!(connection.next_tx_frame(), 2);

    connection.on_frame(&AshFrame::RstAck {
        version: 2,
        reset_code: 0x0b,
    });
    assert_eq!(connection.next_tx_frame(), 0);
    assert_eq!(connection.next_rx_frame(), 0);
    assert_eq!(
        connection.in_flight(),
        0,
        "frames in flight belong to the connection that just went away"
    );
}

#[test]
fn an_unprompted_rstack_reconnects_rather_than_erroring() {
    let mut connection = Connection::new();
    connection.on_frame(&AshFrame::RstAck {
        version: 2,
        reset_code: 0x02,
    });
    assert!(connection.is_connected());
}

#[test]
fn a_data_frame_is_delivered_and_acknowledged_together() {
    let mut connection = connected();
    let (payload, outbound) = connection.on_frame(&AshFrame::Data {
        frame_num: 0,
        ack_num: 0,
        retransmit: false,
        payload: vec![0xaa],
    });
    assert_eq!(payload, Some(vec![0xaa]));
    assert_eq!(
        outbound,
        Outbound::Send(AshFrame::Ack {
            ack_num: 1,
            not_ready: false
        }),
        "the ack names the next frame expected, not the one received"
    );
}

#[test]
fn a_duplicate_frame_is_acknowledged_but_not_delivered_twice() {
    let mut connection = connected();
    let first = AshFrame::Data {
        frame_num: 0,
        ack_num: 0,
        retransmit: false,
        payload: vec![0xaa],
    };
    assert_eq!(connection.on_frame(&first).0, Some(vec![0xaa]));

    let duplicate = AshFrame::Data {
        frame_num: 0,
        ack_num: 0,
        retransmit: true,
        payload: vec![0xaa],
    };
    let (payload, outbound) = connection.on_frame(&duplicate);
    assert_eq!(payload, None, "a duplicate must not be delivered again");
    assert!(
        matches!(outbound, Outbound::Send(AshFrame::Ack { ack_num: 1, .. })),
        "but it must still be acknowledged, or the NCP keeps resending"
    );
}

#[test]
fn an_out_of_sequence_frame_is_not_accepted_out_of_order() {
    let mut connection = connected();
    let (payload, outbound) = connection.on_frame(&AshFrame::Data {
        frame_num: 3,
        ack_num: 0,
        retransmit: false,
        payload: vec![0xbb],
    });
    assert_eq!(payload, None, "a gap must not be filled by guessing");
    assert!(matches!(
        outbound,
        Outbound::Send(AshFrame::Ack { ack_num: 0, .. })
    ));
}

#[test]
fn a_nak_resends_the_oldest_frame_with_the_retransmit_bit_set() {
    let mut connection = connected();
    connection.send_data(vec![0x11]).expect("sends");
    let (_, outbound) = connection.on_frame(&AshFrame::Nak {
        ack_num: 0,
        not_ready: false,
    });
    match outbound {
        Outbound::Send(AshFrame::Data {
            frame_num,
            retransmit,
            payload,
            ..
        }) => {
            assert_eq!(frame_num, 0);
            assert_eq!(payload, vec![0x11]);
            assert!(
                retransmit,
                "the bit is how the NCP tells a resend from a wrapped number"
            );
        }
        other => panic!("expected a resend, got {other:?}"),
    }
}

#[test]
fn an_ack_retires_frames_across_the_sequence_wrap() {
    let mut connection = connected();
    for n in 0..u8::try_from(MAX_WINDOW).unwrap_or(u8::MAX) {
        connection.send_data(vec![n]).expect("sends");
    }
    assert_eq!(connection.in_flight(), MAX_WINDOW);
    connection.on_frame(&AshFrame::Ack {
        ack_num: 7,
        not_ready: false,
    });
    assert_eq!(connection.in_flight(), 0);
    for n in 0..3u8 {
        connection.send_data(vec![0x10 + n]).expect("sends");
    }
    connection.on_frame(&AshFrame::Ack {
        ack_num: 0,
        not_ready: false,
    });
    assert_eq!(
        connection.in_flight(),
        2,
        "an ack at the wrap point must retire exactly what it covers"
    );
    connection.on_frame(&AshFrame::Ack {
        ack_num: 2,
        not_ready: false,
    });
    assert_eq!(connection.in_flight(), 0);
}

#[test]
fn the_send_window_stops_one_short_of_the_sequence_space() {
    let mut connection = connected();
    for n in 0..u8::try_from(MAX_WINDOW).unwrap_or(u8::MAX) {
        connection.send_data(vec![n]).expect("sends");
    }
    assert!(matches!(
        connection.send_data(vec![0xff]),
        Err(AshError::WindowFull { .. })
    ));
    connection.on_frame(&AshFrame::Ack {
        ack_num: 3,
        not_ready: false,
    });
    assert!(connection.send_data(vec![0xff]).is_ok());
}

#[test]
fn an_ack_retires_only_what_it_covers() {
    let mut connection = connected();
    connection.send_data(vec![0]).expect("sends");
    connection.send_data(vec![1]).expect("sends");
    connection.send_data(vec![2]).expect("sends");
    connection.on_frame(&AshFrame::Ack {
        ack_num: 2,
        not_ready: false,
    });
    assert_eq!(connection.in_flight(), 1);
}

#[test]
fn the_link_fails_after_too_many_resends_rather_than_looping() {
    let mut connection = connected();
    connection.send_data(vec![0x11]).expect("sends");
    for _ in 0..MAX_RETRANSMITS {
        connection.retransmit_oldest();
    }
    assert_eq!(connection.state(), ConnectionState::Failed);
    assert_eq!(
        connection.retransmit_oldest(),
        Outbound::Nothing,
        "a failed link must stop resending"
    );
}

#[test]
fn reset_gives_up_after_a_bounded_number_of_attempts() {
    let mut connection = Connection::new();
    for _ in 0..MAX_RESET_ATTEMPTS {
        assert_eq!(connection.begin_reset(), Outbound::Send(AshFrame::Rst));
    }
    assert_eq!(connection.begin_reset(), Outbound::Nothing);
    assert_eq!(connection.state(), ConnectionState::Failed);
}

#[test]
fn an_ncp_error_frame_fails_the_link_without_retrying() {
    let mut connection = connected();
    connection.send_data(vec![0x11]).expect("sends");
    connection.on_frame(&AshFrame::Error {
        version: 2,
        error_code: 0x51,
    });
    assert_eq!(connection.state(), ConnectionState::Failed);
    assert_eq!(connection.in_flight(), 0);
}

#[test]
fn a_bad_crc_produces_a_nak_and_a_protocol_error_does_not() {
    let mut connection = connected();
    let nak = connection.on_decode_failure(&AshError::BadCrc {
        computed: 1,
        carried: 2,
    });
    assert!(matches!(nak, Outbound::Send(AshFrame::Nak { .. })));

    let nothing = connection.on_decode_failure(&AshError::InvalidControl {
        control: 0xff,
        length: 0,
    });
    assert_eq!(
        nothing,
        Outbound::Nothing,
        "NAKing a protocol violation asks for the same bad frame again"
    );
}
