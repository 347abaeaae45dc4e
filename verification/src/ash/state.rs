//! The ASH connection state machine.
//!
//! ASH state is small but every piece of it is load-bearing: two sequence
//! counters, a retransmit queue, and a connection phase. Held as separate
//! booleans it becomes possible to be half-connected, or to acknowledge a frame
//! that was never received, so the phase is an enum and the counters live
//! behind methods that maintain their own invariants.
//!
//! # Sans-I/O
//!
//! This type performs no I/O and owns no timer. It is fed received frames and
//! asked what to send; the caller does the writing and the waiting. That is
//! what makes a reset handshake, a retransmission and a sequence rollover all
//! testable without a serial port or a clock.

use vstd::prelude::*;
use vstd::slice::slice_to_vec;

use crate::ash::error::AshError;
use crate::ash::frame::{next_sequence, AshFrame, FrameModel};

verus! {

/// How many times a reset is attempted before giving up.
pub const MAX_RESET_ATTEMPTS: u8 = 5;

/// How many times a data frame is sent before the link is declared dead.
pub const MAX_RETRANSMITS: u8 = 3;

/// How many frames may be unacknowledged at once.
///
/// Seven, one short of the eight-value sequence space, and the shortfall is
/// the point. With all eight outstanding, an `ack_num` of 0 means both "none
/// acknowledged" and "all eight acknowledged" -- the counter has wrapped onto
/// itself and there is nothing in the frame to distinguish the two. Bounding
/// the window one below the modulus makes that state unreachable.
pub const MAX_WINDOW: usize = 7;

/// Where the connection is.
#[derive(Debug, Clone, Copy, PartialEq, Eq, Structural)]
pub enum ConnectionState {
    /// Nothing has been sent; no NCP known to be there.
    Disconnected,
    /// A reset has been sent and `RSTACK` is awaited.
    Resetting {
        /// How many resets have been sent.
        attempts: u8,
    },
    /// The NCP answered and frames may flow.
    Connected,
    /// The link failed in a way a reset will not fix.
    Failed,
}

/// Something the caller should send.
#[derive(Debug, Clone, PartialEq, Eq)]
pub enum Outbound {
    /// Write this frame to the port.
    Send(AshFrame),
    /// Nothing to do.
    Nothing,
}

/// Something the caller should send, over mathematical frames.
pub enum OutboundModel {
    /// Write this frame to the port.
    Send(FrameModel),
    /// Nothing to do.
    Nothing,
}

impl View for Outbound {
    type V = OutboundModel;

    open spec fn view(&self) -> OutboundModel {
        match *self {
            Outbound::Send(frame) => OutboundModel::Send(frame@),
            Outbound::Nothing => OutboundModel::Nothing,
        }
    }
}

/// An in-flight data frame awaiting acknowledgement.
#[derive(Debug)]
struct InFlight {
    frame_num: u8,
    payload: Vec<u8>,
    sends: u8,
}

/// A data frame awaiting acknowledgement, as a mathematical value.
pub struct InFlightModel {
    /// The number it carries.
    pub frame_num: u8,
    /// What it carries.
    pub payload: Seq<u8>,
    /// How often it has been sent.
    pub sends: u8,
}

impl View for InFlight {
    type V = InFlightModel;

    closed spec fn view(&self) -> InFlightModel {
        InFlightModel {
            frame_num: self.frame_num,
            payload: self.payload@,
            sends: self.sends,
        }
    }
}

/// What a connection remembers.
pub struct ConnectionModel {
    /// Where the connection is.
    pub state: ConnectionState,
    /// The number the next data frame we send will carry.
    pub next_tx_frame: u8,
    /// The number of the next data frame we expect to receive.
    pub next_rx_frame: u8,
    /// Frames sent and not yet acknowledged, oldest first.
    pub in_flight: Seq<InFlightModel>,
}

/// The part of a queue that begins with the frame numbered `number`: nothing,
/// where no frame has that number.
pub open spec fn queue_from(queue: Seq<InFlightModel>, number: u8) -> Seq<InFlightModel>
    decreases queue.len(),
{
    if queue.len() == 0 || queue[0].frame_num == number {
        queue
    } else {
        queue_from(queue.skip(1), number)
    }
}

impl ConnectionModel {
    /// A fresh numbering with nothing outstanding.
    pub open spec fn fresh(state: ConnectionState) -> ConnectionModel {
        ConnectionModel { state, next_tx_frame: 0, next_rx_frame: 0, in_flight: seq![] }
    }

    /// What holds of every connection: the counters are three bits wide, at
    /// most seven frames are outstanding, these carry the numbers just below
    /// the next one in order, none has been sent more often than allowed, and
    /// a handshake in progress has sent at least one reset and not too many.
    pub open spec fn wf(self) -> bool {
        &&& self.next_tx_frame < 8
        &&& self.next_rx_frame < 8
        &&& self.in_flight.len() <= MAX_WINDOW
        &&& forall|i: int|
            0 <= i < self.in_flight.len() ==> (#[trigger] self.in_flight[i]).frame_num == (
            self.next_tx_frame + 8 - self.in_flight.len() + i) % 8
        &&& forall|i: int|
            0 <= i < self.in_flight.len() ==> 1 <= (#[trigger] self.in_flight[i]).sends
                <= MAX_RETRANSMITS
        &&& self.state matches ConnectionState::Resetting { attempts } ==> 1 <= attempts
            <= MAX_RESET_ATTEMPTS
    }

    /// How many resets the handshake in progress has sent.
    pub open spec fn attempts(self) -> int {
        match self.state {
            ConnectionState::Resetting { attempts } => attempts as int,
            _ => 0,
        }
    }

    /// The connection after one more reset is asked for.
    pub open spec fn after_reset(self) -> ConnectionModel {
        if self.attempts() >= MAX_RESET_ATTEMPTS {
            ConnectionModel { state: ConnectionState::Failed, ..self }
        } else {
            ConnectionModel::fresh(
                ConnectionState::Resetting { attempts: (self.attempts() + 1) as u8 },
            )
        }
    }

    /// What asking for one more reset sends.
    pub open spec fn reset_sends(self) -> OutboundModel {
        if self.attempts() >= MAX_RESET_ATTEMPTS {
            OutboundModel::Nothing
        } else {
            OutboundModel::Send(FrameModel::Rst)
        }
    }

    /// Why a payload cannot be sent now, if it cannot.
    pub open spec fn send_refusal(self) -> Option<AshError> {
        if self.state != ConnectionState::Connected {
            Some(AshError::NotConnected)
        } else if self.in_flight.len() >= MAX_WINDOW {
            Some(
                AshError::WindowFull {
                    outstanding: self.in_flight.len() as usize,
                    limit: MAX_WINDOW,
                },
            )
        } else {
            None
        }
    }

    /// The data frame that carries a new payload.
    pub open spec fn data_frame(self, payload: Seq<u8>) -> FrameModel {
        FrameModel::Data {
            frame_num: self.next_tx_frame,
            ack_num: self.next_rx_frame,
            retransmit: false,
            payload,
        }
    }

    /// The connection after a new payload was sent.
    pub open spec fn after_send(self, payload: Seq<u8>) -> ConnectionModel {
        ConnectionModel {
            next_tx_frame: ((self.next_tx_frame + 1) % 8) as u8,
            in_flight: self.in_flight.push(
                InFlightModel { frame_num: self.next_tx_frame, payload, sends: 1 },
            ),
            ..self
        }
    }

    /// The connection after an acknowledgement that names `ack_num`, the next
    /// frame that the NCP expects.
    pub open spec fn retired(self, ack_num: u8) -> ConnectionModel {
        ConnectionModel { in_flight: queue_from(self.in_flight, ack_num), ..self }
    }

    /// Whether the oldest outstanding frame has been sent as often as allowed.
    pub open spec fn exhausted(self) -> bool {
        self.in_flight.len() > 0 && self.in_flight[0].sends >= MAX_RETRANSMITS
    }

    /// The connection after the oldest outstanding frame is to be resent.
    pub open spec fn after_retransmit(self) -> ConnectionModel {
        if self.in_flight.len() == 0 {
            self
        } else if self.exhausted() {
            ConnectionModel { state: ConnectionState::Failed, ..self }
        } else {
            let oldest = self.in_flight[0];
            ConnectionModel {
                in_flight: self.in_flight.update(
                    0,
                    InFlightModel { sends: (oldest.sends + 1) as u8, ..oldest },
                ),
                ..self
            }
        }
    }

    /// What is sent when the oldest outstanding frame is to be resent.
    pub open spec fn retransmit_sends(self) -> OutboundModel {
        if self.in_flight.len() == 0 || self.exhausted() {
            OutboundModel::Nothing
        } else {
            OutboundModel::Send(
                FrameModel::Data {
                    frame_num: self.in_flight[0].frame_num,
                    ack_num: self.next_rx_frame,
                    retransmit: true,
                    payload: self.in_flight[0].payload,
                },
            )
        }
    }

    /// The acknowledgement of everything received so far.
    pub open spec fn ack(self) -> FrameModel {
        FrameModel::Ack { ack_num: self.next_rx_frame, not_ready: false }
    }

    /// The connection after a frame arrived.
    pub open spec fn after_frame(self, frame: FrameModel) -> ConnectionModel {
        match frame {
            FrameModel::RstAck { .. } => ConnectionModel::fresh(ConnectionState::Connected),
            FrameModel::Error { .. } => ConnectionModel {
                state: ConnectionState::Failed,
                in_flight: seq![],
                ..self
            },
            FrameModel::Ack { ack_num, .. } => self.retired(ack_num),
            FrameModel::Nak { ack_num, .. } => self.retired(ack_num).after_retransmit(),
            FrameModel::Rst => self,
            FrameModel::Data { frame_num, ack_num, .. } => {
                let retired = self.retired(ack_num);
                if frame_num == self.next_rx_frame {
                    ConnectionModel { next_rx_frame: ((frame_num + 1) % 8) as u8, ..retired }
                } else {
                    retired
                }
            },
        }
    }

    /// The payload that a frame delivers: only the next expected data frame
    /// delivers one.
    pub open spec fn delivers(self, frame: FrameModel) -> Option<Seq<u8>> {
        match frame {
            FrameModel::Data { frame_num, payload, .. } if frame_num == self.next_rx_frame => Some(
                payload,
            ),
            _ => None,
        }
    }

    /// What a frame is answered with.
    pub open spec fn answers(self, frame: FrameModel) -> OutboundModel {
        match frame {
            FrameModel::Nak { ack_num, .. } => self.retired(ack_num).retransmit_sends(),
            FrameModel::Data { .. } => OutboundModel::Send(self.after_frame(frame).ack()),
            _ => OutboundModel::Nothing,
        }
    }

    /// What a frame that failed to decode is answered with.
    pub open spec fn answers_failure(self, error: AshError) -> OutboundModel {
        if error.nak_mends() {
            OutboundModel::Send(FrameModel::Nak { ack_num: self.next_rx_frame, not_ready: false })
        } else {
            OutboundModel::Nothing
        }
    }
}

/// The ASH half of a connection.
#[derive(Debug)]
pub struct Connection {
    state: ConnectionState,
    /// The number the next data frame we send will carry.
    next_tx_frame: u8,
    /// The number of the next data frame we expect to receive.
    next_rx_frame: u8,
    /// Frames sent and not yet acknowledged, oldest first.
    in_flight: Vec<InFlight>,
}

impl View for Connection {
    type V = ConnectionModel;

    closed spec fn view(&self) -> ConnectionModel {
        ConnectionModel {
            state: self.state,
            next_tx_frame: self.next_tx_frame,
            next_rx_frame: self.next_rx_frame,
            in_flight: queue_model(self.in_flight@),
        }
    }
}

/// A queue over mathematical frames.
closed spec fn queue_model(queue: Seq<InFlight>) -> Seq<InFlightModel> {
    Seq::new(queue.len(), |i: int| queue[i]@)
}

impl Default for Connection {
    fn default() -> (res: Self)
        ensures
            res@.wf(),
            res@ == ConnectionModel::fresh(ConnectionState::Disconnected),
    {
        Connection::new()
    }
}

/// What is behind the first `cut` frames, none of which has the number, is
/// where the search goes on.
proof fn queue_from_skips(queue: Seq<InFlightModel>, number: u8, cut: int)
    requires
        0 <= cut <= queue.len(),
        forall|i: int| 0 <= i < cut ==> (#[trigger] queue[i]).frame_num != number,
    ensures
        queue_from(queue, number) == queue_from(queue.skip(cut), number),
    decreases cut,
{
    if cut > 0 {
        let rest = queue.skip(1);
        assert forall|i: int| 0 <= i < cut - 1 implies (#[trigger] rest[i]).frame_num
            != number by {
            assert(rest[i] == queue[i + 1]);
        }
        queue_from_skips(rest, number, cut - 1);
        assert(rest.skip(cut - 1) =~= queue.skip(cut));
    } else {
        assert(queue.skip(0) =~= queue);
    }
}

/// What remains of a queue is its tail: nothing is reordered or changed.
proof fn queue_from_is_a_tail(queue: Seq<InFlightModel>, number: u8)
    ensures
        queue_from(queue, number).len() <= queue.len(),
        queue_from(queue, number) == queue.skip(queue.len() - queue_from(queue, number).len()),
    decreases queue.len(),
{
    if queue.len() == 0 || queue[0].frame_num == number {
        assert(queue.skip(0) =~= queue);
    } else {
        queue_from_is_a_tail(queue.skip(1), number);
        let kept = queue_from(queue, number);
        assert(queue.skip(1).skip(queue.len() - 1 - kept.len()) =~= queue.skip(
            queue.len() - kept.len(),
        ));
    }
}

/// Retiring acknowledged frames keeps the invariant.
#[verifier::spinoff_prover]
proof fn retiring_keeps_wf(connection: ConnectionModel, ack_num: u8)
    requires
        connection.wf(),
    ensures
        connection.retired(ack_num).wf(),
{
    queue_from_is_a_tail(connection.in_flight, ack_num);
    let kept = connection.retired(ack_num).in_flight;
    let cut = connection.in_flight.len() - kept.len();
    assert forall|i: int| 0 <= i < kept.len() implies (#[trigger] kept[i]).frame_num == (
    connection.next_tx_frame + 8 - kept.len() + i) % 8 && 1 <= kept[i].sends
        <= MAX_RETRANSMITS by {
        assert(kept[i] == connection.in_flight[cut + i]);
    }
}

/// Sending a payload with room in the window keeps the invariant.
#[verifier::spinoff_prover]
proof fn sending_keeps_wf(connection: ConnectionModel, payload: Seq<u8>)
    requires
        connection.wf(),
        connection.in_flight.len() < MAX_WINDOW,
    ensures
        connection.after_send(payload).wf(),
{
    let sent = connection.after_send(payload);
    assert forall|i: int| 0 <= i < sent.in_flight.len() implies (
    #[trigger] sent.in_flight[i]).frame_num == (sent.next_tx_frame + 8 - sent.in_flight.len() + i)
        % 8 && 1 <= sent.in_flight[i].sends <= MAX_RETRANSMITS by {
        if i < connection.in_flight.len() {
            assert(sent.in_flight[i] == connection.in_flight[i]);
        }
    }
}

impl Connection {
    /// A fresh, disconnected connection.
    pub fn new() -> (res: Self)
        ensures
            res@.wf(),
            res@ == ConnectionModel::fresh(ConnectionState::Disconnected),
    {
        let res = Connection {
            state: ConnectionState::Disconnected,
            next_tx_frame: 0,
            next_rx_frame: 0,
            in_flight: Vec::new(),
        };
        proof {
            assert(res@.in_flight =~= seq![]);
        }
        res
    }

    /// Where the connection is.
    pub fn state(&self) -> (res: ConnectionState)
        ensures
            res == self@.state,
    {
        self.state
    }

    /// Whether data may be sent.
    pub fn is_connected(&self) -> (res: bool)
        ensures
            res == (self@.state == ConnectionState::Connected),
    {
        matches!(self.state, ConnectionState::Connected)
    }

    /// How many frames are awaiting acknowledgement.
    pub fn in_flight(&self) -> (res: usize)
        ensures
            res == self@.in_flight.len(),
    {
        self.in_flight.len()
    }

    /// The number the next data frame we send will carry.
    pub fn next_tx_frame(&self) -> (res: u8)
        ensures
            res == self@.next_tx_frame,
    {
        self.next_tx_frame
    }

    /// The number of the next data frame we expect to receive.
    pub fn next_rx_frame(&self) -> (res: u8)
        ensures
            res == self@.next_rx_frame,
    {
        self.next_rx_frame
    }

    /// Begins the reset handshake.
    ///
    /// Counters go back to zero here rather than on `RSTACK`: after a reset the
    /// NCP starts from frame zero, and a host that kept its old numbering
    /// would send a frame the NCP rejects as out of sequence.
    pub fn begin_reset(&mut self) -> (res: Outbound)
        requires
            old(self)@.wf(),
        ensures
            final(self)@.wf(),
            final(self)@ == old(self)@.after_reset(),
            res@ == old(self)@.reset_sends(),
    {
        let attempts: u8 = match self.state {
            ConnectionState::Resetting { attempts } => attempts,
            _ => 0,
        };
        if attempts >= MAX_RESET_ATTEMPTS {
            self.state = ConnectionState::Failed;
            return Outbound::Nothing;
        }
        self.state = ConnectionState::Resetting { attempts: attempts + 1 };
        self.next_tx_frame = 0;
        self.next_rx_frame = 0;
        self.in_flight.clear();
        proof {
            assert(self@.in_flight =~= seq![]);
        }
        Outbound::Send(AshFrame::Rst)
    }

    /// Queues a payload and returns the data frame to send.
    ///
    /// # Errors
    ///
    /// [`AshError::NotConnected`] before the handshake completes -- sending
    /// data to an NCP that has not answered a reset produces no reply and no
    /// diagnosis, so refusing says which step was skipped -- and
    /// [`AshError::WindowFull`] when seven frames are already outstanding.
    pub fn send_data(&mut self, payload: Vec<u8>) -> (res: Result<AshFrame, AshError>)
        requires
            old(self)@.wf(),
        ensures
            final(self)@.wf(),
            match res {
                Ok(frame) => {
                    &&& old(self)@.send_refusal() is None
                    &&& frame@ == old(self)@.data_frame(payload@)
                    &&& final(self)@ == old(self)@.after_send(payload@)
                },
                Err(error) => {
                    &&& old(self)@.send_refusal() == Some(error)
                    &&& final(self)@ == old(self)@
                },
            },
    {
        if !self.is_connected() {
            return Err(AshError::NotConnected);
        }
        if self.in_flight.len() >= MAX_WINDOW {
            return Err(
                AshError::WindowFull { outstanding: self.in_flight.len(), limit: MAX_WINDOW },
            );
        }
        let frame_num: u8 = self.next_tx_frame;
        self.next_tx_frame = next_sequence(frame_num);
        self.in_flight.push(
            InFlight { frame_num, payload: slice_to_vec(payload.as_slice()), sends: 1 },
        );
        proof {
            assert(self@.in_flight =~= old(self)@.after_send(payload@).in_flight);
            sending_keeps_wf(old(self)@, payload@);
        }
        Ok(AshFrame::Data { frame_num, ack_num: self.next_rx_frame, retransmit: false, payload })
    }

    /// What a received frame means, and what to send back.
    ///
    /// Returns the payload of a data frame when one arrived, alongside whatever
    /// the caller should write. Both, because a data frame simultaneously
    /// delivers a payload and obliges an acknowledgement, and returning only
    /// one of those invites forgetting the other.
    pub fn on_frame(&mut self, frame: &AshFrame) -> (res: (Option<Vec<u8>>, Outbound))
        requires
            old(self)@.wf(),
        ensures
            final(self)@.wf(),
            final(self)@ == old(self)@.after_frame(frame@),
            match res.0 {
                Some(payload) => old(self)@.delivers(frame@) == Some(payload@),
                None => old(self)@.delivers(frame@) is None,
            },
            res.1@ == old(self)@.answers(frame@),
    {
        match frame {
            AshFrame::RstAck { .. } => {
                // The handshake completing. Accepted from any state: an NCP
                // that resets on its own sends this unprompted, and treating
                // it as unexpected would leave the host talking to a device
                // that has forgotten the conversation.
                self.state = ConnectionState::Connected;
                self.next_tx_frame = 0;
                self.next_rx_frame = 0;
                self.in_flight.clear();
                proof {
                    assert(self@.in_flight =~= seq![]);
                }
                (None, Outbound::Nothing)
            },
            AshFrame::Error { .. } => {
                // Not recoverable by retrying: the NCP is telling us it needs
                // a reset before it will do anything else.
                self.state = ConnectionState::Failed;
                self.in_flight.clear();
                proof {
                    assert(self@.in_flight =~= seq![]);
                }
                (None, Outbound::Nothing)
            },
            AshFrame::Ack { ack_num, .. } => {
                self.retire_acknowledged(*ack_num);
                (None, Outbound::Nothing)
            },
            AshFrame::Nak { ack_num, .. } => {
                self.retire_acknowledged(*ack_num);
                (None, self.retransmit_oldest())
            },
            AshFrame::Rst => {
                // The host sends these; an NCP does not. Ignored rather than
                // treated as an error, because a loopback or an echoing
                // adapter can produce one and it means nothing.
                (None, Outbound::Nothing)
            },
            AshFrame::Data { frame_num, ack_num, payload, .. } => {
                self.retire_acknowledged(*ack_num);
                if *frame_num == self.next_rx_frame {
                    self.next_rx_frame = next_sequence(*frame_num);
                    let ack = AshFrame::Ack { ack_num: self.next_rx_frame, not_ready: false };
                    (Some(slice_to_vec(payload.as_slice())), Outbound::Send(ack))
                } else {
                    // Either a duplicate the NCP resent because our ack was
                    // lost, or a genuine gap. Both are answered by
                    // re-acknowledging what we do have: a duplicate must not
                    // be delivered twice, and a gap must not be filled by
                    // accepting a frame out of order.
                    let ack = AshFrame::Ack { ack_num: self.next_rx_frame, not_ready: false };
                    (None, Outbound::Send(ack))
                }
            },
        }
    }

    /// What to send when a received frame failed to decode.
    ///
    /// A NAK for the recoverable cases, so the NCP resends. Anything else is
    /// left alone: `NAKing` a protocol violation asks for the same bad frame
    /// again.
    pub fn on_decode_failure(&mut self, error: &AshError) -> (res: Outbound)
        ensures
            *final(self) == *old(self),
            res@ == old(self)@.answers_failure(*error),
    {
        if error.is_recoverable_by_nak() {
            Outbound::Send(AshFrame::Nak { ack_num: self.next_rx_frame, not_ready: false })
        } else {
            Outbound::Nothing
        }
    }

    /// Resends the oldest unacknowledged frame, if there is one.
    ///
    /// Called on a NAK and on a timeout. The retransmit bit is set so the NCP
    /// can tell a genuine resend from a new frame that reuses the number after
    /// a wrap.
    pub fn retransmit_oldest(&mut self) -> (res: Outbound)
        requires
            old(self)@.wf(),
        ensures
            final(self)@.wf(),
            final(self)@ == old(self)@.after_retransmit(),
            res@ == old(self)@.retransmit_sends(),
    {
        let ack_num: u8 = self.next_rx_frame;
        if self.in_flight.len() == 0 {
            return Outbound::Nothing;
        }
        proof {
            assert(self@.in_flight[0] == self.in_flight@[0]@);
        }
        if self.in_flight[0].sends >= MAX_RETRANSMITS {
            self.state = ConnectionState::Failed;
            return Outbound::Nothing;
        }
        let frame_num: u8 = self.in_flight[0].frame_num;
        let payload: Vec<u8> = slice_to_vec(self.in_flight[0].payload.as_slice());
        self.in_flight[0].sends = self.in_flight[0].sends + 1;
        proof {
            let before = old(self)@;
            assert(self@.in_flight =~= before.after_retransmit().in_flight);
            assert forall|i: int| 0 <= i < self@.in_flight.len() implies (
            #[trigger] self@.in_flight[i]).frame_num == (self@.next_tx_frame + 8
                - self@.in_flight.len() + i) % 8 && 1 <= self@.in_flight[i].sends
                <= MAX_RETRANSMITS by {
                assert(before.in_flight[i].frame_num == self@.in_flight[i].frame_num);
            }
        }
        Outbound::Send(AshFrame::Data { frame_num, ack_num, retransmit: true, payload })
    }

    /// Drops frames the NCP has acknowledged.
    ///
    /// `ack_num` is the next frame the NCP expects, so every frame before it is
    /// acknowledged.
    ///
    /// Done positionally rather than with modular arithmetic. The queue is
    /// ordered oldest-first, so "everything before `ack_num`" is "everything
    /// ahead of the entry numbered `ack_num`" -- which needs no reasoning about
    /// the wrap and cannot be off by a window.
    ///
    /// `ack_num` not being present means every outstanding frame is behind it,
    /// so the queue drains.
    fn retire_acknowledged(&mut self, ack_num: u8)
        requires
            old(self)@.wf(),
        ensures
            final(self)@.wf(),
            final(self)@ == old(self)@.retired(ack_num),
    {
        proof {
            retiring_keeps_wf(self@, ack_num);
        }
        let mut cut: usize = 0;
        while cut < self.in_flight.len() && self.in_flight[cut].frame_num != ack_num
            invariant
                *self == *old(self),
                cut <= self.in_flight@.len(),
                forall|i: int|
                    0 <= i < cut ==> (#[trigger] self@.in_flight[i]).frame_num != ack_num,
            decreases self.in_flight@.len() - cut,
        {
            cut += 1;
        }
        proof {
            queue_from_skips(self@.in_flight, ack_num, cut as int);
            if cut < self.in_flight@.len() {
                assert(self@.in_flight.skip(cut as int)[0] == self.in_flight@[cut as int]@);
            }
        }
        self.in_flight = self.in_flight.split_off(cut);
        proof {
            assert(self@.in_flight =~= old(self)@.in_flight.skip(cut as int));
        }
    }
}

/// Two positions less than a full round apart have different numbers.
#[verifier::spinoff_prover]
proof fn positions_differ(base: int, first: int, second: int)
    requires
        first < second < first + 8,
    ensures
        (base + first) % 8 != (base + second) % 8,
{
}

/// The frames outstanding carry different numbers, none of them the next one:
/// an acknowledgement never names two positions in the window.
#[verifier::spinoff_prover]
pub proof fn outstanding_numbers_are_distinct(connection: ConnectionModel)
    requires
        connection.wf(),
    ensures
        forall|i: int, j: int|
            0 <= i < j < connection.in_flight.len() ==> (
            #[trigger] connection.in_flight[i]).frame_num != (
            #[trigger] connection.in_flight[j]).frame_num,
        forall|i: int|
            0 <= i < connection.in_flight.len() ==> (#[trigger] connection.in_flight[i]).frame_num
                != connection.next_tx_frame,
{
    let queue = connection.in_flight;
    let base = connection.next_tx_frame + 8 - queue.len();
    assert forall|i: int, j: int| 0 <= i < j < queue.len() implies (
    #[trigger] queue[i]).frame_num != (#[trigger] queue[j]).frame_num by {
        positions_differ(base, i, j);
    }
    assert forall|i: int| 0 <= i < queue.len() implies (#[trigger] queue[i]).frame_num
        != connection.next_tx_frame by {
        positions_differ(base, i, queue.len() as int);
        assert((base + queue.len()) % 8 == connection.next_tx_frame);
    }
}

/// How many outstanding frames lie before the one numbered `ack_num`, counted
/// around the wrap.
pub open spec fn frames_before(connection: ConnectionModel, ack_num: u8) -> int {
    (ack_num + 8 - (connection.next_tx_frame + 8 - connection.in_flight.len()) % 8) % 8
}

/// An acknowledgement retires exactly the frames before the number it names,
/// also across the wrap; one that names no frame of the window retires all.
#[verifier::spinoff_prover]
pub proof fn acknowledgement_is_cumulative(connection: ConnectionModel, ack_num: u8)
    requires
        connection.wf(),
        ack_num < 8,
    ensures
        connection.retired(ack_num).in_flight == if frames_before(connection, ack_num)
            <= connection.in_flight.len() {
            connection.in_flight.skip(frames_before(connection, ack_num))
        } else {
            seq![]
        },
{
    let queue = connection.in_flight;
    let before = frames_before(connection, ack_num);
    let cut = if before <= queue.len() { before } else { queue.len() as int };
    queue_from_skips(queue, ack_num, cut);
    if cut < queue.len() {
        assert(queue.skip(cut)[0] == queue[cut]);
    }
    if before > queue.len() {
        assert(queue.skip(cut) =~= seq![]);
    }
}

/// A data frame that arrives twice is acknowledged both times, with the same
/// number, and delivered once.
pub proof fn duplicates_are_delivered_once(connection: ConnectionModel, frame: FrameModel)
    requires
        connection.wf(),
        connection.delivers(frame) is Some,
    ensures
        connection.after_frame(frame).delivers(frame) is None,
        connection.after_frame(frame).answers(frame) == connection.answers(frame),
{
}

/// A data frame that is not the next one delivers nothing, leaves the expected
/// number alone, and is answered by acknowledging what has arrived in order.
pub proof fn gaps_are_not_filled(connection: ConnectionModel, frame: FrameModel)
    requires
        frame matches FrameModel::Data { frame_num, .. } && frame_num != connection.next_rx_frame,
    ensures
        connection.delivers(frame) is None,
        connection.after_frame(frame).next_rx_frame == connection.next_rx_frame,
        connection.answers(frame) == OutboundModel::Send(connection.ack()),
{
}

/// The whole window lies before the next number.
#[verifier::spinoff_prover]
proof fn everything_is_before_the_next(connection: ConnectionModel)
    requires
        connection.wf(),
    ensures
        frames_before(connection, connection.next_tx_frame) == connection.in_flight.len(),
{
}

/// What one end sends, an end that expects that number delivers; and its
/// acknowledgement empties the sender's queue.
#[verifier::spinoff_prover]
pub proof fn sent_data_is_delivered_and_acknowledged(
    sender: ConnectionModel,
    receiver: ConnectionModel,
    payload: Seq<u8>,
)
    requires
        sender.wf(),
        receiver.wf(),
        sender.send_refusal() is None,
        receiver.next_rx_frame == sender.next_tx_frame,
    ensures
        receiver.delivers(sender.data_frame(payload)) == Some(payload),
        receiver.answers(sender.data_frame(payload)) matches OutboundModel::Send(ack)
            && sender.after_send(payload).after_frame(ack).in_flight.len() == 0,
{
    let frame = sender.data_frame(payload);
    let ack_num = receiver.after_frame(frame).next_rx_frame;
    let sent = sender.after_send(payload);
    sending_keeps_wf(sender, payload);
    assert(ack_num == sent.next_tx_frame);
    everything_is_before_the_next(sent);
    acknowledgement_is_cumulative(sent, ack_num);
}

/// A frame that was lost is recovered: rejected from its number on, it is sent
/// again as it was, marked as a resend, and an end that still expects that
/// number delivers it.
pub proof fn a_lost_frame_is_recovered(
    sender: ConnectionModel,
    receiver: ConnectionModel,
    payload: Seq<u8>,
    not_ready: bool,
)
    requires
        sender.wf(),
        sender.send_refusal() is None,
        sender.in_flight.len() == 0,
        receiver.next_rx_frame == sender.next_tx_frame,
    ensures
        ({
            let nak = FrameModel::Nak { ack_num: sender.next_tx_frame, not_ready };
            sender.after_send(payload).answers(nak) matches OutboundModel::Send(again) && {
                &&& again == (FrameModel::Data {
                    frame_num: sender.next_tx_frame,
                    ack_num: sender.next_rx_frame,
                    retransmit: true,
                    payload,
                })
                &&& receiver.delivers(again) == Some(payload)
            }
        }),
{
    let sent = sender.after_send(payload);
    assert(sent.in_flight[0].frame_num == sender.next_tx_frame);
    assert(sent.retired(sender.next_tx_frame).in_flight == sent.in_flight);
}

/// An answered reset starts both directions from zero with nothing
/// outstanding, in whatever state it arrives.
pub proof fn an_answered_reset_starts_afresh(connection: ConnectionModel, frame: FrameModel)
    requires
        frame is RstAck,
    ensures
        connection.after_frame(frame) == ConnectionModel::fresh(ConnectionState::Connected),
{
}

/// The connection after `times` requests to resend, with nothing arriving.
pub open spec fn after_retransmits(connection: ConnectionModel, times: nat) -> ConnectionModel
    decreases times,
{
    if times == 0 {
        connection
    } else {
        after_retransmits(connection, (times - 1) as nat).after_retransmit()
    }
}

/// A frame that is never acknowledged is not resent forever: the link is
/// declared dead after as many requests as there are sends allowed, and resends
/// nothing from then on.
#[verifier::spinoff_prover]
pub proof fn resending_is_bounded(connection: ConnectionModel)
    requires
        connection.wf(),
        connection.in_flight.len() > 0,
    ensures
        after_retransmits(connection, MAX_RETRANSMITS as nat).state == ConnectionState::Failed,
        after_retransmits(connection, MAX_RETRANSMITS as nat).retransmit_sends()
            == OutboundModel::Nothing,
{
    reveal_with_fuel(after_retransmits, 4);
}

/// The connection after `times` requests to reset, with nothing arriving.
pub open spec fn after_resets(connection: ConnectionModel, times: nat) -> ConnectionModel
    decreases times,
{
    if times == 0 {
        connection
    } else {
        after_resets(connection, (times - 1) as nat).after_reset()
    }
}

/// A handshake that is never answered sends as many resets as allowed, counts
/// them, and then gives up.
#[verifier::spinoff_prover]
pub proof fn resetting_is_bounded(connection: ConnectionModel)
    requires
        !(connection.state is Resetting),
    ensures
        forall|times: nat|
            times < MAX_RESET_ATTEMPTS ==> (#[trigger] after_resets(
                connection,
                times,
            )).reset_sends() == OutboundModel::Send(FrameModel::Rst),
        after_resets(connection, MAX_RESET_ATTEMPTS as nat).reset_sends()
            == OutboundModel::Nothing,
        after_resets(connection, (MAX_RESET_ATTEMPTS + 1) as nat).state
            == ConnectionState::Failed,
{
    assert forall|times: nat| times <= MAX_RESET_ATTEMPTS implies #[trigger] after_resets(
        connection,
        times,
    ).attempts() == times by {
        reveal_with_fuel(after_resets, 6);
    }
}

} // verus!
