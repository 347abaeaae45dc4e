//! The ASH link: numbering, acknowledgement, delivery, resending, resetting.

use vstd::prelude::*;

use crate::ash::error::AshError;
use crate::ash::frame::FrameModel;
use crate::ash::state::{
    acknowledgement_is_cumulative, queue_from, ConnectionModel, ConnectionState, InFlightModel,
    Outbound, OutboundModel,
};

verus! {

/// How many of the frames outstanding come before number `ack`, counted from
/// the oldest and around the wrap; all of them, where no frame has that number.
pub open spec fn acknowledged(connection: ConnectionModel, ack: u8) -> int {
    let outstanding = connection.in_flight.len() as int;
    let oldest = (connection.next_tx_frame - outstanding) % 8;
    let before = (ack - oldest) % 8;
    if ack < 8 && before < outstanding {
        before
    } else {
        outstanding
    }
}

/// No frame in a queue has a number that three bits cannot hold, so one that
/// names such a number drains it.
proof fn strange_numbers_drain(connection: ConnectionModel, queue: Seq<InFlightModel>, ack: u8)
    requires
        ack >= 8,
        forall|i: int| 0 <= i < queue.len() ==> (#[trigger] queue[i]).frame_num < 8,
    ensures
        queue_from(queue, ack).len() == 0,
    decreases queue.len(),
{
    if queue.len() > 0 {
        assert(queue[0].frame_num < 8);
        assert forall|i: int| 0 <= i < queue.skip(1).len() implies (
        #[trigger] queue.skip(1)[i]).frame_num < 8 by {
            assert(queue.skip(1)[i] == queue[i + 1]);
        }
        strange_numbers_drain(connection, queue.skip(1), ack);
    }
}

/// What an acknowledgement number leaves outstanding.
#[verifier::spinoff_prover]
proof fn what_remains(connection: ConnectionModel, ack: u8)
    requires
        connection.wf(),
    ensures
        0 <= acknowledged(connection, ack) <= connection.in_flight.len(),
        connection.retired(ack).in_flight == connection.in_flight.skip(
            acknowledged(connection, ack),
        ),
{
    let queue = connection.in_flight;
    let outstanding = queue.len() as int;
    assert(queue.skip(outstanding) =~= Seq::<InFlightModel>::empty());
    if ack >= 8 {
        assert forall|i: int| 0 <= i < queue.len() implies (#[trigger] queue[i]).frame_num < 8 by {}
        strange_numbers_drain(connection, queue, ack);
        assert(connection.retired(ack).in_flight =~= queue.skip(outstanding));
    } else {
        acknowledgement_is_cumulative(connection, ack);
        assert((connection.next_tx_frame + 8 - outstanding) % 8 == (connection.next_tx_frame
            - outstanding) % 8);
        let oldest = (connection.next_tx_frame - outstanding) % 8;
        assert((ack + 8 - oldest) % 8 == (ack - oldest) % 8);
    }
}

/// Every frame that carries an acknowledgement retires exactly the frames
/// before the number it names, and leaves the others as they were: a data
/// frame, whether or not it is the next one expected, as much as an
/// acknowledgement. After a rejection the first of those left is about to be
/// sent once more, unless it has been sent three times.
pub proof fn received_acknowledgements_retire_frames(
    connection: ConnectionModel,
    frame_num: u8,
    ack_num: u8,
    flag: bool,
    payload: Seq<u8>,
)
    requires
        connection.wf(),
    ensures
        ({
            let left = connection.in_flight.skip(acknowledged(connection, ack_num));
            let data = FrameModel::Data { frame_num, ack_num, retransmit: flag, payload };
            let ack = FrameModel::Ack { ack_num, not_ready: flag };
            let nak = FrameModel::Nak { ack_num, not_ready: flag };
            let resent = connection.after_frame(nak).in_flight;
            &&& connection.after_frame(data).in_flight == left
            &&& connection.after_frame(ack).in_flight == left
            &&& resent.len() == left.len()
            &&& forall|i: int| 0 < i < left.len() ==> #[trigger] resent[i] == left[i]
            &&& left.len() > 0 ==> {
                &&& resent[0].frame_num == left[0].frame_num
                &&& resent[0].payload == left[0].payload
                &&& resent[0].sends == if left[0].sends < 3 {
                    (left[0].sends + 1) as u8
                } else {
                    left[0].sends
                }
            }
        }),
{
    what_remains(connection, ack_num);
}

/// A data frame delivers its payload exactly where it has the number expected,
/// which then moves on by one around eight; it is acknowledged either way, by
/// the number expected from then on, and changes nothing else but the queue.
pub proof fn data_is_delivered_in_order(
    connection: ConnectionModel,
    frame_num: u8,
    ack_num: u8,
    retransmit: bool,
    payload: Seq<u8>,
)
    requires
        connection.wf(),
    ensures
        ({
            let data = FrameModel::Data { frame_num, ack_num, retransmit, payload };
            let after = connection.after_frame(data);
            let expected = connection.next_rx_frame;
            let next = if frame_num == expected {
                if expected == 7 { 0 } else { expected + 1 }
            } else {
                expected as int
            };
            &&& connection.delivers(data) == if frame_num == expected {
                Some(payload)
            } else {
                None
            }
            &&& after.next_rx_frame == next
            &&& connection.answers(data) == OutboundModel::Send(
                FrameModel::Ack { ack_num: next as u8, not_ready: false },
            )
            &&& after.next_tx_frame == connection.next_tx_frame
            &&& after.state == connection.state
        }),
{
}

/// What the frames without data do: an acknowledgement answers nothing, a
/// rejection is answered by sending the oldest frame left again, or by giving
/// the link up where that has been sent three times; an answered reset starts
/// afresh; an error fails the link and drops what is outstanding; a reset
/// request is ignored. None of them delivers anything.
pub proof fn frames_without_data_are_handled(
    connection: ConnectionModel,
    ack_num: u8,
    flag: bool,
    version: u8,
    code: u8,
)
    requires
        connection.wf(),
    ensures
        ({
            let left = connection.in_flight.skip(acknowledged(connection, ack_num));
            let ack = FrameModel::Ack { ack_num, not_ready: flag };
            let nak = FrameModel::Nak { ack_num, not_ready: flag };
            let rstack = FrameModel::RstAck { version, reset_code: code };
            let error = FrameModel::Error { version, error_code: code };
            let acked = connection.after_frame(ack);
            let naked = connection.after_frame(nak);
            let failed = connection.after_frame(error);
            let fresh = connection.after_frame(rstack);
            &&& acked.state == connection.state
            &&& acked.next_tx_frame == connection.next_tx_frame
            &&& acked.next_rx_frame == connection.next_rx_frame
            &&& connection.answers(ack) == OutboundModel::Nothing
            &&& naked.next_tx_frame == connection.next_tx_frame
            &&& naked.next_rx_frame == connection.next_rx_frame
            &&& naked.state == if left.len() > 0 && left[0].sends >= 3 {
                ConnectionState::Failed
            } else {
                connection.state
            }
            &&& connection.answers(nak) == if left.len() == 0 || left[0].sends >= 3 {
                OutboundModel::Nothing
            } else {
                OutboundModel::Send(
                    FrameModel::Data {
                        frame_num: left[0].frame_num,
                        ack_num: connection.next_rx_frame,
                        retransmit: true,
                        payload: left[0].payload,
                    },
                )
            }
            &&& fresh.state == ConnectionState::Connected
            &&& fresh.next_tx_frame == 0
            &&& fresh.next_rx_frame == 0
            &&& fresh.in_flight.len() == 0
            &&& connection.answers(rstack) == OutboundModel::Nothing
            &&& failed.state == ConnectionState::Failed
            &&& failed.next_tx_frame == connection.next_tx_frame
            &&& failed.next_rx_frame == connection.next_rx_frame
            &&& failed.in_flight.len() == 0
            &&& connection.answers(error) == OutboundModel::Nothing
            &&& connection.after_frame(FrameModel::Rst) == connection
            &&& connection.answers(FrameModel::Rst) == OutboundModel::Nothing
            &&& connection.delivers(ack) is None
            &&& connection.delivers(nak) is None
            &&& connection.delivers(rstack) is None
            &&& connection.delivers(error) is None
            &&& connection.delivers(FrameModel::Rst) is None
        }),
{
    what_remains(connection, ack_num);
}

/// A payload is sent only on a connected link with fewer than seven frames
/// outstanding. It goes out under the next number, with the number expected as
/// its acknowledgement, joins the queue at its end as sent once, and moves the
/// next number on by one around eight.
pub proof fn payloads_are_numbered_and_queued(connection: ConnectionModel, payload: Seq<u8>)
    requires
        connection.wf(),
    ensures
        connection.send_refusal() == if !(connection.state == ConnectionState::Connected) {
            Some(AshError::NotConnected)
        } else if connection.in_flight.len() >= 7 {
            Some(
                AshError::WindowFull {
                    outstanding: connection.in_flight.len() as usize,
                    limit: 7,
                },
            )
        } else {
            None
        },
        connection.data_frame(payload) == (FrameModel::Data {
            frame_num: connection.next_tx_frame,
            ack_num: connection.next_rx_frame,
            retransmit: false,
            payload,
        }),
        ({
            let after = connection.after_send(payload);
            let queue = connection.in_flight;
            &&& after.state == connection.state
            &&& after.next_rx_frame == connection.next_rx_frame
            &&& after.next_tx_frame == if connection.next_tx_frame == 7 {
                0
            } else {
                connection.next_tx_frame + 1
            }
            &&& after.in_flight.len() == queue.len() + 1
            &&& after.in_flight.take(queue.len() as int) == queue
            &&& after.in_flight.last().frame_num == connection.next_tx_frame
            &&& after.in_flight.last().payload == payload
            &&& after.in_flight.last().sends == 1
        }),
{
    assert(connection.after_send(payload).in_flight.take(connection.in_flight.len() as int)
        =~= connection.in_flight);
}

/// Asking for the oldest frame again: it goes out as it was, marked as a
/// resend, with the current acknowledgement, and counts one send more; the
/// third time round the link fails instead; with nothing outstanding, nothing
/// happens.
pub proof fn the_oldest_frame_is_resent(connection: ConnectionModel)
    requires
        connection.wf(),
    ensures
        ({
            let after = connection.after_retransmit();
            let queue = connection.in_flight;
            let spent = queue.len() > 0 && queue[0].sends >= 3;
            &&& after.next_tx_frame == connection.next_tx_frame
            &&& after.next_rx_frame == connection.next_rx_frame
            &&& after.state == if spent { ConnectionState::Failed } else { connection.state }
            &&& after.in_flight.len() == queue.len()
            &&& forall|i: int| 0 < i < queue.len() ==> #[trigger] after.in_flight[i] == queue[i]
            &&& queue.len() > 0 ==> {
                &&& after.in_flight[0].frame_num == queue[0].frame_num
                &&& after.in_flight[0].payload == queue[0].payload
                &&& after.in_flight[0].sends == queue[0].sends + if spent { 0int } else { 1 }
            }
            &&& connection.retransmit_sends() == if queue.len() == 0 || spent {
                OutboundModel::Nothing
            } else {
                OutboundModel::Send(
                    FrameModel::Data {
                        frame_num: queue[0].frame_num,
                        ack_num: connection.next_rx_frame,
                        retransmit: true,
                        payload: queue[0].payload,
                    },
                )
            }
        }),
{
}

/// Asking for a reset: one is sent and counted, and the link starts over at
/// zero with nothing outstanding; after the fifth that went unanswered none is
/// sent and the link fails, otherwise as it was.
pub proof fn resets_are_counted(connection: ConnectionModel)
    ensures
        ({
            let after = connection.after_reset();
            let sent = match connection.state {
                ConnectionState::Resetting { attempts } => attempts as int,
                _ => 0,
            };
            if sent < 5 {
                &&& connection.reset_sends() == OutboundModel::Send(FrameModel::Rst)
                &&& after.state == (ConnectionState::Resetting { attempts: (sent + 1) as u8 })
                &&& after.next_tx_frame == 0
                &&& after.next_rx_frame == 0
                &&& after.in_flight.len() == 0
            } else {
                &&& connection.reset_sends() == OutboundModel::Nothing
                &&& after.state == ConnectionState::Failed
                &&& after.next_tx_frame == connection.next_tx_frame
                &&& after.next_rx_frame == connection.next_rx_frame
                &&& after.in_flight == connection.in_flight
            }
        }),
        ({
            let fresh = ConnectionModel::fresh(connection.state);
            &&& fresh.state == connection.state
            &&& fresh.next_tx_frame == 0
            &&& fresh.next_rx_frame == 0
            &&& fresh.in_flight.len() == 0
        }),
{
}

/// A frame that arrived damaged is answered by asking for the number expected
/// again; one that breaks the protocol is not answered.
pub proof fn damage_is_rejected_and_violations_are_not(
    connection: ConnectionModel,
    error: AshError,
)
    ensures
        connection.answers_failure(error) == match error {
            AshError::BadCrc { .. } => OutboundModel::Send(
                FrameModel::Nak { ack_num: connection.next_rx_frame, not_ready: false },
            ),
            AshError::Substituted => OutboundModel::Send(
                FrameModel::Nak { ack_num: connection.next_rx_frame, not_ready: false },
            ),
            _ => OutboundModel::Nothing,
        },
{
}

/// The model of what is to be sent is the model of the frame.
pub proof fn outbound_frames_are_modelled(outbound: Outbound)
    ensures
        match outbound {
            Outbound::Send(frame) => outbound@ == OutboundModel::Send(frame@),
            Outbound::Nothing => outbound@ == OutboundModel::Nothing,
        },
{
}

/// The window in every state: at most seven frames, their numbers running up to
/// the one before the next without a gap, each sent once to three times.
pub proof fn windows_run_without_a_gap(connection: ConnectionModel, at: int)
    requires
        connection.wf(),
        0 <= at < connection.in_flight.len(),
    ensures
        connection.in_flight.len() <= 7,
        connection.next_tx_frame < 8,
        connection.next_rx_frame < 8,
        (connection.in_flight[at].frame_num + connection.in_flight.len() - at) % 8
            == connection.next_tx_frame,
        1 <= connection.in_flight[at].sends <= 3,
{
}

} // verus!
