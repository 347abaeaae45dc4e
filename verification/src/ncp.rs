//! One NCP conversation, sans-I/O.
//!
//! [`Ncp`] owns the ASH connection, the frame decoder and the correlator, and
//! decides everything a conversation has to decide: what goes on the wire for a
//! command, what a received frame is answered with and where its contents go,
//! when a command is answered, lost or late, and how a version is agreed. It
//! performs no I/O and owns no clock. Whoever drives it writes what it asks to
//! be written, hands it what was read, and says when a deadline has passed.
//!
//! # One command at a time
//!
//! Deliberate. EZSP over ASH has a seven-frame window and the NCP answers in
//! order, so pipelining would buy little and cost the one property worth having
//! here: certainty about which frame answers which command. A caller that wants
//! concurrency can hold the [`Ncp`] behind a lock; a caller that wants
//! correctness gets it by default.
//!
//! # Callbacks are queued, not dropped
//!
//! A callback can arrive at any moment, including in the middle of waiting for
//! a response. They are collected and handed to the caller by
//! [`Ncp::take_callbacks`] rather than being discarded, because a join
//! notification that arrives while some unrelated command is in flight is still
//! a join.

use vstd::prelude::*;
use vstd::slice::slice_to_vec;

use crate::ash::codec::{
    decoded_models, encode, encode_refusal, encoded_frames_decode, read_boundaries_do_not_matter,
    wire, Decoded, DecodedModel, Decoder, DecoderModel, MAX_FRAME_WITH_CRC,
};
use crate::ash::error::AshError;
use crate::ash::frame::{AshFrame, FrameModel, MAX_DATA_FIELD_LEN};
use crate::ash::state::{
    Connection, ConnectionModel, ConnectionState, Outbound, OutboundModel, MAX_RESET_ATTEMPTS,
};
use crate::ezsp::callback::{Callback, CallbackModel};
use crate::ezsp::codec::{EzspDecode, EzspEncode, Reader, Writer};
use crate::ezsp::command::{may_offer, Command, Version, VersionResponse};
use crate::ezsp::correlation::{
    Classified, ClassifiedModel, Correlator, CorrelatorModel, Pending,
};
use crate::ezsp::error::EzspError;
use crate::ezsp::frame::{
    expressible, header, headers_round_trip, parse, parse_failure, parts, write_header, Direction,
    FrameControl, FrameId, FrameParts, HeaderFormat, MAX_FRAME_LENGTH,
};
use crate::ezsp::version::ProtocolVersion;
use crate::transport::error::TransportError;

verus! {

/// The stack type an `EmberZNet` mesh NCP reports.
///
/// Checked during negotiation: another stack type answers the same commands
/// with different meanings, so continuing would decode its replies as if they
/// were mesh ones.
pub const STACK_TYPE_MESH: u8 = 0x02;

/// How long to wait for a command's answer, in seconds.
pub const COMMAND_TIMEOUT_SECS: u64 = 5;

/// How long to wait for the NCP to answer a reset, in seconds.
///
/// Longer than a command: the NCP is rebooting its stack, and the first attempt
/// after plugging in a dongle is the slowest.
pub const RESET_TIMEOUT_SECS: u64 = 10;

/// A conversation with one NCP.
#[derive(Debug)]
pub struct Ncp {
    ash: Connection,
    decoder: Decoder,
    correlator: Correlator,
    version: ProtocolVersion,
    /// The NCP firmware's own version number, as reported during negotiation.
    ///
    /// Kept because it identifies the firmware build, and firmware builds are
    /// what differ.
    stack_version: u16,
    callbacks: Vec<Callback>,
    /// The pending command's response parameters, once they arrive.
    response: Option<Vec<u8>>,
    /// Whether the bootstrap `version` command has been sent.
    ///
    /// The legacy header may be used exactly once, for the first `version`.
    /// After that the NCP expects extended frames, and a legacy one makes it
    /// forget the negotiated version -- every extended command afterwards is
    /// answered `INVALID_COMMAND` with `ERROR_VERSION_NOT_SET`.
    initial_version_sent: bool,
    /// The format the pending command's response will arrive in, if one is
    /// pending.
    ///
    /// Needed because the answer to the bootstrap `version` command comes back
    /// in the legacy format, and by then the caller is already thinking in
    /// extended terms.
    ///
    /// `None` when nothing is outstanding: what arrives then is a callback, and
    /// those are extended, also while a *legacy* command is pending.
    pending_format: Option<HeaderFormat>,
    /// Whether the NCP has reset since the pending command was issued.
    reset_seen: bool,
    /// Key-bearing commands that were sent and whose answer may still arrive.
    ///
    /// A command that was given up is still answered, late, and the answer is
    /// no less secret for it.
    secrets_due: Vec<Pending>,
}

/// What a conversation remembers.
pub struct NcpModel {
    /// The ASH connection.
    pub ash: ConnectionModel,
    /// The frame decoder.
    pub decoder: DecoderModel,
    /// What is outstanding.
    pub correlator: CorrelatorModel,
    /// The EZSP version in use.
    pub version: ProtocolVersion,
    /// The firmware's own version number.
    pub stack_version: u16,
    /// Callbacks not yet taken, oldest first.
    pub callbacks: Seq<CallbackModel>,
    /// The answer that has arrived and was not taken yet.
    pub response: Option<Seq<u8>>,
    /// Whether the bootstrap `version` command has been sent.
    pub initial_version_sent: bool,
    /// The format in which the pending command is answered.
    pub pending_format: Option<HeaderFormat>,
    /// Whether the NCP has reset since the pending command was issued.
    pub reset_seen: bool,
    /// Key-bearing commands whose answer may still arrive.
    pub secrets_due: Seq<Pending>,
}

/// A list of commands without those that carry this sequence number and id.
pub open spec fn without(list: Seq<Pending>, command: Pending) -> Seq<Pending>
    decreases list.len(),
{
    if list.len() == 0 {
        seq![]
    } else if list.last() == command {
        without(list.drop_last(), command)
    } else {
        without(list.drop_last(), command).push(list.last())
    }
}

/// A list of callbacks over byte sequences.
pub open spec fn callback_models(list: Seq<Callback>) -> Seq<CallbackModel> {
    Seq::new(list.len(), |i: int| list[i]@)
}

/// An optional buffer over byte sequences.
pub open spec fn optional_bytes(bytes: Option<Vec<u8>>) -> Option<Seq<u8>> {
    match bytes {
        Some(bytes) => Some(bytes@),
        None => None,
    }
}

/// A buffer or an error, over byte sequences.
pub open spec fn resulting_bytes(res: Result<Vec<u8>, EzspError>) -> Result<Seq<u8>, EzspError> {
    match res {
        Ok(bytes) => Ok(bytes@),
        Err(error) => Err(error),
    }
}

impl View for Ncp {
    type V = NcpModel;

    closed spec fn view(&self) -> NcpModel {
        NcpModel {
            ash: self.ash@,
            decoder: self.decoder@,
            correlator: self.correlator@,
            version: self.version,
            stack_version: self.stack_version,
            callbacks: callback_models(self.callbacks@),
            response: optional_bytes(self.response),
            initial_version_sent: self.initial_version_sent,
            pending_format: self.pending_format,
            reset_seen: self.reset_seen,
            secrets_due: self.secrets_due@,
        }
    }
}

/// A frame as bytes for the port, or why it does not fit on the wire.
pub open spec fn framed(frame: FrameModel) -> Result<Seq<u8>, EzspError> {
    match encode_refusal(frame) {
        Some(error) => Err(EzspError::Ash(error)),
        None => Ok(wire(frame)),
    }
}

/// What is to be written for an outbound frame, if there is one.
pub open spec fn framed_reply(outbound: OutboundModel) -> Result<Option<Seq<u8>>, EzspError> {
    match outbound {
        OutboundModel::Send(frame) => match framed(frame) {
            Ok(bytes) => Ok(Some(bytes)),
            Err(error) => Err(error),
        },
        OutboundModel::Nothing => Ok(None),
    }
}

impl NcpModel {
    /// A conversation that has not begun.
    pub open spec fn fresh() -> NcpModel {
        NcpModel {
            ash: ConnectionModel::fresh(ConnectionState::Disconnected),
            decoder: DecoderModel::clean(),
            correlator: CorrelatorModel::fresh(),
            version: ProtocolVersion(ProtocolVersion::PREFERRED),
            stack_version: 0,
            callbacks: seq![],
            response: None,
            initial_version_sent: false,
            pending_format: None,
            reset_seen: false,
            secrets_due: seq![],
        }
    }

    /// What holds of every conversation.
    ///
    /// A format is remembered exactly while a command is outstanding, and a
    /// command that is outstanding has no answer yet.
    pub open spec fn wf(self) -> bool {
        &&& self.ash.wf()
        &&& self.decoder.partial.len() <= MAX_FRAME_WITH_CRC
        &&& self.pending_format is Some <==> self.correlator.pending is Some
        &&& self.correlator.pending is Some ==> self.response is None
    }

    /// Whether frames may flow.
    pub open spec fn connected(self) -> bool {
        self.ash.state == ConnectionState::Connected
    }

    /// The header that the next command with this id goes out with: only the
    /// first `version` is legacy.
    pub open spec fn format_for(self, frame_id: FrameId) -> HeaderFormat {
        if frame_id.0 == FrameId::VERSION && !self.initial_version_sent {
            HeaderFormat::Legacy
        } else {
            HeaderFormat::Extended
        }
    }

    /// The conversation after a command was registered as outstanding. An
    /// answer to an earlier one that nobody took is gone.
    pub open spec fn registered(self, frame_id: FrameId) -> NcpModel {
        NcpModel {
            correlator: self.correlator.after_begin(frame_id),
            response: None,
            pending_format: Some(self.format_for(frame_id)),
            reset_seen: false,
            ..self
        }
    }

    /// The EZSP frame of a command.
    pub open spec fn command_frame(self, frame_id: FrameId, parameters: Seq<u8>) -> Seq<u8> {
        header(self.correlator.next_sequence, frame_id, self.format_for(frame_id)) + parameters
    }

    /// The conversation once the frame is about to be handed to ASH: a legacy
    /// header is used up.
    pub open spec fn committed(self, frame_id: FrameId) -> NcpModel {
        NcpModel {
            initial_version_sent: self.initial_version_sent || self.format_for(frame_id)
                == HeaderFormat::Legacy,
            ..self.registered(frame_id)
        }
    }

    /// The conversation after a command's frame was queued.
    pub open spec fn queued(self, frame_id: FrameId, parameters: Seq<u8>) -> NcpModel {
        NcpModel {
            ash: self.ash.after_send(self.command_frame(frame_id, parameters)),
            secrets_due: if frame_id.is_secret() {
                let command = Pending { sequence: self.correlator.next_sequence, frame_id };
                without(self.secrets_due, command).push(command)
            } else {
                self.secrets_due
            },
            ..self.committed(frame_id)
        }
    }

    /// Whether what arrives now must be kept out of logs: a key-bearing command
    /// is outstanding, or one that was sent has not been answered.
    pub open spec fn hides(self) -> bool {
        ||| self.secrets_due.len() > 0
        ||| self.correlator.pending matches Some(pending) && pending.frame_id.is_secret()
    }

    /// What issuing a command changes: nothing while another is outstanding;
    /// else it becomes the outstanding one, and as much happens as its
    /// parameters (`failure` says why they do not encode) and the link allow.
    pub open spec fn after_issue(
        self,
        frame_id: FrameId,
        parameters: Seq<u8>,
        failure: Option<EzspError>,
    ) -> NcpModel {
        if self.correlator.pending is Some {
            self
        } else if failure is Some || self.command_frame(frame_id, parameters).len()
            > MAX_FRAME_LENGTH {
            self.registered(frame_id)
        } else if self.ash.send_refusal() is Some {
            self.committed(frame_id)
        } else {
            self.queued(frame_id, parameters)
        }
    }

    /// What issuing a command gives: the bytes to write, or why there are
    /// none.
    pub open spec fn issue(
        self,
        frame_id: FrameId,
        parameters: Seq<u8>,
        failure: Option<EzspError>,
    ) -> Result<Seq<u8>, EzspError> {
        let frame = self.command_frame(frame_id, parameters);
        match (self.correlator.pending, failure) {
            (Some(pending), _) => Err(EzspError::SequenceMismatch { sequence: pending.sequence }),
            (None, Some(error)) => Err(error),
            (None, None) => if frame.len() > MAX_FRAME_LENGTH {
                Err(
                    EzspError::FrameTooLong {
                        length: frame.len() as usize,
                        limit: MAX_FRAME_LENGTH,
                    },
                )
            } else {
                match self.ash.send_refusal() {
                    Some(error) => Err(EzspError::Ash(error)),
                    None => framed(self.ash.data_frame(frame)),
                }
            },
        }
    }

    /// The conversation after the link layer handled a frame.
    pub open spec fn after_decoded(self, decoded: DecodedModel) -> NcpModel {
        match decoded {
            DecodedModel::Frame(frame) => NcpModel {
                ash: self.ash.after_frame(frame),
                reset_seen: self.reset_seen || (frame is RstAck && self.correlator.pending is Some),
                secrets_due: if frame is RstAck { seq![] } else { self.secrets_due },
                ..self
            },
            DecodedModel::Rejected(_) => self,
        }
    }

    /// What a frame is answered with.
    pub open spec fn reply(self, decoded: DecodedModel) -> OutboundModel {
        match decoded {
            DecodedModel::Frame(frame) => self.ash.answers(frame),
            DecodedModel::Rejected(error) => self.ash.answers_failure(error),
        }
    }

    /// The EZSP frame that a link frame delivers.
    pub open spec fn delivery(self, decoded: DecodedModel) -> Option<Seq<u8>> {
        match decoded {
            DecodedModel::Frame(frame) => self.ash.delivers(frame),
            DecodedModel::Rejected(_) => None,
        }
    }

    /// The header format in which a frame that arrives now is read: a callback
    /// is extended whatever is pending, and anything else comes in the format
    /// of the pending command.
    pub open spec fn inbound_format(self, payload: Seq<u8>) -> HeaderFormat {
        if payload.len() >= 2 && FrameControl::of_low_byte(payload[1]).is_callback {
            HeaderFormat::Extended
        } else {
            match self.pending_format {
                Some(format) => format,
                None => HeaderFormat::Extended,
            }
        }
    }

    /// The key-bearing commands still to be answered after a frame arrived.
    pub open spec fn secrets_due_after(self, frame: FrameParts) -> Seq<Pending> {
        if frame.control.is_callback || frame.control.direction != Direction::Response {
            self.secrets_due
        } else {
            without(
                self.secrets_due,
                Pending { sequence: frame.sequence, frame_id: frame.frame_id },
            )
        }
    }

    /// The conversation after an EZSP frame was filed: an answer is parked, a
    /// callback that decodes is queued, and anything else leaves no trace but
    /// in the count of stale frames.
    pub open spec fn dispatched(self, payload: Seq<u8>) -> NcpModel {
        let format = self.inbound_format(payload);
        let frame = parts(payload, format);
        if parse_failure(payload, format) is Some {
            self
        } else {
            let filed = NcpModel {
                correlator: self.correlator.after_frame(frame),
                secrets_due: self.secrets_due_after(frame),
                ..self
            };
            match self.correlator.classification(frame) {
                ClassifiedModel::Response { parameters } => NcpModel {
                    response: Some(parameters),
                    pending_format: None,
                    ..filed
                },
                ClassifiedModel::Callback { frame_id, parameters } => if Callback::layout(
                    frame_id,
                    parameters,
                    self.version,
                ) is Whole {
                    NcpModel {
                        callbacks: self.callbacks.push(
                            Callback::at_start_of(frame_id, parameters, self.version),
                        ),
                        ..filed
                    }
                } else {
                    filed
                },
                ClassifiedModel::Stale { .. } => filed,
            }
        }
    }

    /// The conversation after a frame was handled and what it delivers filed.
    pub open spec fn absorbed(self, decoded: DecodedModel) -> NcpModel {
        match self.delivery(decoded) {
            Some(payload) => self.after_decoded(decoded).dispatched(payload),
            None => self.after_decoded(decoded),
        }
    }

    /// The conversation after a list of frames was handled, in order.
    pub open spec fn absorbed_all(self, list: Seq<DecodedModel>) -> NcpModel
        decreases list.len(),
    {
        if list.len() == 0 {
            self
        } else {
            self.absorbed_all(list.drop_last()).absorbed(list.last())
        }
    }

    /// The conversation after a read: the bytes go through the decoder, and
    /// every frame they complete is handled.
    pub open spec fn after_bytes(self, bytes: Seq<u8>) -> NcpModel {
        NcpModel { decoder: self.decoder.after_all(bytes), ..self }.absorbed_all(
            self.decoder.yields_all(bytes),
        )
    }

    /// The conversation with the agreed version adopted.
    pub open spec fn settled(self, negotiated: VersionResponse) -> NcpModel {
        NcpModel {
            version: negotiated.protocol_version,
            stack_version: negotiated.stack_version,
            ..self
        }
    }

    /// Whether the pending command can no longer be answered.
    pub open spec fn lost(self) -> bool {
        !self.connected() || self.reset_seen
    }

    /// Why a command went unanswered. `outcome` is what ended the wait.
    pub open spec fn unanswered(
        self,
        frame_id: FrameId,
        outcome: Result<(), EzspError>,
    ) -> EzspError {
        match (self.correlator.pending, outcome) {
            (Some(pending), _) if self.lost() => EzspError::NcpReset {
                frame_id: pending.frame_id,
            },
            (_, Err(error)) => error,
            (Some(pending), Ok(())) => EzspError::Timeout { frame_id: pending.frame_id },
            (None, Ok(())) => EzspError::Timeout { frame_id },
        }
    }

    /// The conversation after a command went unanswered.
    pub open spec fn after_unanswered(self, outcome: Result<(), EzspError>) -> NcpModel {
        if self.lost() {
            NcpModel { correlator: self.correlator.after_reset(), pending_format: None, ..self }
        } else if outcome is Err {
            self
        } else {
            NcpModel { correlator: self.correlator.abandoned(), pending_format: None, ..self }
        }
    }
}

/// What a received link frame asks of whoever drives the conversation: write
/// the reply first, then file the payload.
#[derive(Debug)]
pub struct Received {
    /// The EZSP frame it delivered, for [`Ncp::dispatch`].
    pub payload: Option<Vec<u8>>,
    /// Bytes to write to the port.
    pub reply: Option<Vec<u8>>,
}

/// Where a pending command stands.
#[derive(Debug, Clone, PartialEq, Eq)]
pub enum Progress {
    /// Its answer has arrived: the parameters, still encoded.
    Answered(Vec<u8>),
    /// It can no longer be answered.
    Lost,
    /// Nothing has been decided yet.
    Waiting,
}

/// What follows from the NCP's answer to the offered version.
#[derive(Debug, Clone, Copy, PartialEq, Eq, Structural)]
pub enum Negotiation {
    /// The version is agreed.
    Settled(VersionResponse),
    /// Send `version` again, carrying the NCP's own: the first exchange is an
    /// offer, not an agreement.
    Confirm(Version),
}

/// Whether `res` is what a command's answer decodes to: the response where its
/// fields take up the parameters exactly, else the decoder's error, else what
/// was left over.
pub open spec fn is_decoding<C: Command>(
    parameters: Seq<u8>,
    version: ProtocolVersion,
    res: Result<C::Response, EzspError>,
) -> bool {
    let extent = C::Response::extent(parameters, version);
    match res {
        Ok(response) => {
            &&& extent is Whole
            &&& extent.consumed() == parameters.len()
            &&& response.read_from(parameters, version)
        },
        Err(error) => match extent.failure() {
            Some(expected) => error == expected,
            None => {
                &&& extent.consumed() < parameters.len()
                &&& error == (EzspError::TrailingBytes {
                    frame_id: FrameId(C::ID),
                    extra: (parameters.len() - extent.consumed()) as usize,
                })
            },
        },
    }
}

/// What follows from the NCP's answer to the offered version.
pub open spec fn offer_verdict(offered: Version, first: VersionResponse) -> Result<
    Negotiation,
    EzspError,
> {
    if first.stack_type != STACK_TYPE_MESH || !first.protocol_version.supported() {
        Err(EzspError::UnsupportedVersion { negotiated: first.protocol_version })
    } else if first.protocol_version == offered.desired {
        Ok(Negotiation::Settled(first))
    } else {
        Ok(Negotiation::Confirm(Version { desired: first.protocol_version }))
    }
}

/// What follows from the NCP's answer to its own version.
pub open spec fn agreement_verdict(agreed: Version, second: VersionResponse) -> Result<
    VersionResponse,
    EzspError,
> {
    if second.protocol_version != agreed.desired {
        Err(EzspError::UnsupportedVersion { negotiated: second.protocol_version })
    } else {
        Ok(second)
    }
}

/// The `version` command to send after `sent` was answered, if another is
/// needed: the offer may have to be confirmed, the confirmation never.
pub open spec fn next_version(sent: Version, answer: VersionResponse) -> Result<
    Option<Version>,
    EzspError,
> {
    if sent.desired == ProtocolVersion(ProtocolVersion::PREFERRED) {
        match offer_verdict(sent, answer) {
            Ok(Negotiation::Settled(_)) => Ok(None),
            Ok(Negotiation::Confirm(agreed)) => Ok(Some(agreed)),
            Err(error) => Err(error),
        }
    } else {
        match agreement_verdict(sent, answer) {
            Ok(_) => Ok(None),
            Err(error) => Err(error),
        }
    }
}

/// Encodes a frame for the port.
fn frame_bytes(frame: &AshFrame) -> (res: Result<Vec<u8>, EzspError>)
    ensures
        resulting_bytes(res) == framed(frame@),
{
    match encode(frame) {
        Ok(bytes) => Ok(bytes),
        Err(error) => Err(EzspError::Ash(error)),
    }
}

/// Encodes what is to be sent, if anything.
fn reply_bytes(outbound: Outbound) -> (res: Result<Option<Vec<u8>>, EzspError>)
    ensures
        match res {
            Ok(reply) => framed_reply(outbound@) == Ok::<Option<Seq<u8>>, EzspError>(
                optional_bytes(reply),
            ),
            Err(error) => framed_reply(outbound@) == Err::<Option<Seq<u8>>, EzspError>(error),
        },
{
    match outbound {
        Outbound::Send(frame) => match frame_bytes(&frame) {
            Ok(bytes) => Ok(Some(bytes)),
            Err(error) => Err(error),
        },
        Outbound::Nothing => Ok(None),
    }
}

/// The commands that do not carry this sequence number and id.
fn other_than(list: &Vec<Pending>, command: Pending) -> (res: Vec<Pending>)
    ensures
        res@ == without(list@, command),
{
    let mut kept: Vec<Pending> = Vec::new();
    let mut i: usize = 0;
    proof {
        assert(kept@ =~= without(list@.take(0), command));
    }
    while i < list.len()
        invariant
            i <= list@.len(),
            kept@ == without(list@.take(i as int), command),
        decreases list@.len() - i,
    {
        proof {
            assert(list@.take(i + 1).drop_last() =~= list@.take(i as int));
        }
        let entry = list[i];
        if entry != command {
            kept.push(entry);
        }
        i += 1;
    }
    proof {
        assert(list@.take(i as int) =~= list@);
    }
    kept
}

impl Default for Ncp {
    fn default() -> (res: Self)
        ensures
            res@.wf(),
            res@ == NcpModel::fresh(),
    {
        Ncp::new()
    }
}

impl Ncp {
    /// A conversation that has not begun.
    pub fn new() -> (res: Self)
        ensures
            res@.wf(),
            res@ == NcpModel::fresh(),
    {
        let res = Ncp {
            ash: Connection::new(),
            decoder: Decoder::new(),
            correlator: Correlator::new(),
            // Whatever we ask for; replaced by what the NCP answers. Until
            // then only the bootstrap `version` command is encodable, and it
            // has no version-dependent fields.
            version: ProtocolVersion::new(ProtocolVersion::PREFERRED),
            stack_version: 0,
            callbacks: Vec::new(),
            response: None,
            initial_version_sent: false,
            pending_format: None,
            reset_seen: false,
            secrets_due: Vec::new(),
        };
        proof {
            assert(res@.callbacks =~= seq![]);
            assert(res@.secrets_due =~= seq![]);
        }
        res
    }

    /// The EZSP version in use. Every field width follows from it.
    pub fn version(&self) -> (res: ProtocolVersion)
        ensures
            res == self@.version,
    {
        self.version
    }

    /// The NCP firmware's own version number, from the negotiation exchange.
    ///
    /// Distinct from [`Self::version`], which is the *protocol* version. This
    /// one identifies the firmware build -- `0x7440` for `EmberZNet` 7.4.4 --
    /// and is the first thing a hardware report should quote, because firmware
    /// builds are what differ.
    pub fn stack_version(&self) -> (res: u16)
        ensures
            res == self@.stack_version,
    {
        self.stack_version
    }

    /// Whether frames may flow.
    pub fn is_connected(&self) -> (res: bool)
        ensures
            res == self@.connected(),
    {
        self.ash.is_connected()
    }

    /// Whether a callback is waiting to be taken.
    pub fn has_callbacks(&self) -> (res: bool)
        ensures
            res == (self@.callbacks.len() > 0),
    {
        self.callbacks.len() > 0
    }

    /// Callbacks received so far, taken and cleared.
    pub fn take_callbacks(&mut self) -> (res: Vec<Callback>)
        ensures
            callback_models(res@) == old(self)@.callbacks,
            final(self)@ == (NcpModel { callbacks: seq![], ..old(self)@ }),
    {
        let mut taken: Vec<Callback> = Vec::new();
        core::mem::swap(&mut taken, &mut self.callbacks);
        proof {
            assert(self@.callbacks =~= seq![]);
        }
        taken
    }

    /// Whether what arrives now must be kept out of logs.
    ///
    /// Decided from the *commands that were sent*, not from the parsed frame:
    /// the frame has not been parsed yet, and a response that fails to parse
    /// would otherwise be logged in full -- which is precisely the case where
    /// the bytes get pasted into a bug report. A command that timed out counts
    /// until its answer has come or the NCP has reset.
    pub fn hides_inbound(&self) -> (res: bool)
        ensures
            res == self@.hides(),
    {
        if self.secrets_due.len() > 0 {
            return true;
        }
        match self.correlator.pending_frame_id() {
            Some(frame_id) => frame_id.carries_key_material(),
            None => false,
        }
    }

    /// The bytes of reset attempt number `attempt`, counted from zero.
    ///
    /// # Errors
    ///
    /// [`AshError::ResetFailed`] once the attempts are exhausted.
    pub fn next_reset(&mut self, attempt: u8) -> (res: Result<Vec<u8>, EzspError>)
        requires
            old(self)@.wf(),
        ensures
            final(self)@.wf(),
            final(self)@ == if attempt >= MAX_RESET_ATTEMPTS {
                old(self)@
            } else {
                NcpModel {
                    decoder: DecoderModel::clean(),
                    ash: old(self)@.ash.after_reset(),
                    ..old(self)@
                }
            },
            resulting_bytes(res) == if attempt >= MAX_RESET_ATTEMPTS
                || old(self)@.ash.reset_sends() is Nothing {
                Err::<Seq<u8>, EzspError>(EzspError::Ash(AshError::ResetFailed))
            } else {
                Ok(wire(FrameModel::Rst))
            },
    {
        if attempt >= MAX_RESET_ATTEMPTS {
            return Err(EzspError::Ash(AshError::ResetFailed));
        }
        self.decoder.reset();
        match self.ash.begin_reset() {
            Outbound::Send(rst) => frame_bytes(&rst),
            Outbound::Nothing => Err(EzspError::Ash(AshError::ResetFailed)),
        }
    }

    /// Whether a reset attempt succeeded, once its wait has ended. `failed`
    /// says that the wait ended in a failure of the transport.
    ///
    /// On success nothing is outstanding any more and sequence numbers start
    /// over. The NCP has forgotten the negotiated version, so the next
    /// `version` must go out legacy again.
    pub fn finish_reset(&mut self, failed: bool) -> (res: bool)
        requires
            old(self)@.wf(),
        ensures
            final(self)@.wf(),
            res == (!failed && old(self)@.connected()),
            final(self)@ == if res {
                NcpModel {
                    correlator: CorrelatorModel::fresh(),
                    response: None,
                    pending_format: None,
                    initial_version_sent: false,
                    ..old(self)@
                }
            } else {
                old(self)@
            },
    {
        if failed || !self.ash.is_connected() {
            return false;
        }
        self.correlator = Correlator::new();
        self.response = None;
        self.pending_format = None;
        self.initial_version_sent = false;
        true
    }

    /// Issues a command: what is to be written to the port for it.
    ///
    /// # Errors
    ///
    /// [`EzspError::UnsupportedCommand`] when the negotiated version does not
    /// have it, [`EzspError::SequenceMismatch`] while another command is
    /// outstanding, whatever the command's own encoding reports,
    /// [`EzspError::FrameTooLong`] for a frame the protocol does not permit,
    /// and [`EzspError::Ash`] when the link cannot carry it.
    pub fn begin_command<C: Command>(&mut self, command: &C) -> (res: Result<Vec<u8>, EzspError>)
        requires
            old(self)@.wf(),
        ensures
            final(self)@.wf(),
            ({
                let before = old(self)@;
                let frame_id = FrameId(C::ID);
                let parameters = command.encoding(before.version);
                let failure = command.encode_failure(before.version);
                ||| {
                    &&& may_offer::<C>(before.version, false)
                    &&& res == Err::<Vec<u8>, EzspError>(
                        EzspError::UnsupportedCommand { frame_id, version: before.version },
                    )
                    &&& final(self)@ == before
                }
                ||| {
                    &&& may_offer::<C>(before.version, true)
                    &&& resulting_bytes(res) == before.issue(frame_id, parameters, failure)
                    &&& final(self)@ == before.after_issue(frame_id, parameters, failure)
                }
            }),
    {
        let frame_id = FrameId(C::ID);
        if !C::is_available(self.version) {
            return Err(EzspError::UnsupportedCommand { frame_id, version: self.version });
        }
        // The header format belongs to the connection, not the command. Only
        // the first `version` may go out legacy.

        let format = if frame_id.0 == FrameId::VERSION && !self.initial_version_sent {
            HeaderFormat::Legacy
        } else {
            HeaderFormat::Extended
        };
        let sequence: u8 = self.correlator.begin(frame_id)?;
        self.response = None;
        self.pending_format = Some(format);
        self.reset_seen = false;

        let mut out = Writer::new(self.version);
        write_header(&mut out, sequence, frame_id, format)?;
        command.encode(&mut out)?;
        let bytes: Vec<u8> = out.into_vec();
        proof {
            let parameters = command.encoding(self.version);
            assert(bytes@ =~= header(sequence, frame_id, format) + parameters);
            assert(self.callbacks == old(self).callbacks);
        }
        if bytes.len() > MAX_FRAME_LENGTH {
            return Err(
                EzspError::FrameTooLong { length: bytes.len(), limit: MAX_FRAME_LENGTH },
            );
        }
        if matches!(format, HeaderFormat::Legacy) {
            self.initial_version_sent = true;
        }
        match self.ash.send_data(bytes) {
            Ok(data) => {
                if frame_id.carries_key_material() {
                    let command = Pending { sequence, frame_id };
                    self.secrets_due = other_than(&self.secrets_due, command);
                    self.secrets_due.push(command);
                }
                frame_bytes(&data)
            },
            Err(error) => Err(EzspError::Ash(error)),
        }
    }

    /// Feeds bytes that were read through the decoder, and returns the link
    /// frames that completed, each for [`Self::on_decoded`].
    pub fn feed(&mut self, bytes: &[u8]) -> (res: Vec<Decoded>)
        requires
            old(self)@.wf(),
        ensures
            final(self)@.wf(),
            decoded_models(res@) == old(self)@.decoder.yields_all(bytes@),
            final(self)@ == (NcpModel {
                decoder: old(self)@.decoder.after_all(bytes@),
                ..old(self)@
            }),
    {
        self.decoder.feed(bytes)
    }

    /// Handles one link frame: what to write back, and what it delivered.
    ///
    /// # Errors
    ///
    /// [`EzspError::Ash`] where the frame to resend does not fit on the wire.
    pub fn on_decoded(&mut self, decoded: &Decoded) -> (res: Result<Received, EzspError>)
        requires
            old(self)@.wf(),
        ensures
            final(self)@.wf(),
            final(self)@ == old(self)@.after_decoded(decoded@),
            match res {
                Ok(received) => {
                    &&& framed_reply(old(self)@.reply(decoded@)) == Ok::<
                        Option<Seq<u8>>,
                        EzspError,
                    >(optional_bytes(received.reply))
                    &&& optional_bytes(received.payload) == old(self)@.delivery(decoded@)
                },
                Err(error) => framed_reply(old(self)@.reply(decoded@)) == Err::<
                    Option<Seq<u8>>,
                    EzspError,
                >(error),
            },
    {
        match decoded {
            Decoded::Frame(frame) => {
                if matches!(frame, AshFrame::RstAck { .. }) {
                    // What was due died with the NCP's memory of it.
                    self.secrets_due.clear();
                    proof {
                        assert(self.secrets_due@ =~= seq![]);
                    }
                    if self.correlator.is_busy() {
                        self.reset_seen = true;
                    }
                }
                let (payload, outbound) = self.ash.on_frame(frame);
                let reply = reply_bytes(outbound)?;
                Ok(Received { payload, reply })
            },
            Decoded::Rejected(error) => {
                let outbound = self.ash.on_decode_failure(error);
                let reply = reply_bytes(outbound)?;
                Ok(Received { payload: None, reply })
            },
        }
    }

    /// Classifies one EZSP frame and files it.
    pub fn dispatch(&mut self, payload: &[u8])
        requires
            old(self)@.wf(),
        ensures
            final(self)@.wf(),
            final(self)@ == old(self)@.dispatched(payload@),
    {
        // Both headers have their control byte in the same place, so a
        // callback is told before the header is parsed.
        let format = if payload.len() >= 2 && FrameControl::from_low_byte(
            payload[1],
        ).is_callback {
            HeaderFormat::Extended
        } else {
            match self.pending_format {
                Some(format) => format,
                None => HeaderFormat::Extended,
            }
        };
        let parsed = match parse(payload, format) {
            Ok(parsed) => parsed,
            Err(_) => {
                return;
            },
        };
        if !parsed.control.is_callback && parsed.control.direction == Direction::Response {
            let answered = Pending { sequence: parsed.sequence, frame_id: parsed.frame_id };
            self.secrets_due = other_than(&self.secrets_due, answered);
        }
        match self.correlator.classify(&parsed) {
            Classified::Response { parameters } => {
                self.response = Some(slice_to_vec(parameters));
                // Nothing is outstanding now, so a frame arriving next is a
                // callback and must not be parsed as this command's format.
                self.pending_format = None;
            },
            Classified::Callback { frame_id, parameters } => {
                // A callback this build claims to understand but could not
                // decode is not fatal: the connection is fine and the next
                // frame may be the one that matters.
                if let Ok(callback) = Callback::decode(frame_id, parameters, self.version) {
                    self.callbacks.push(callback);
                    proof {
                        assert(self@.callbacks =~= old(self)@.callbacks.push(callback@));
                    }
                }
            },
            Classified::Stale { .. } => {},
        }
    }

    /// The pending response's parameters, if it has arrived.
    pub fn take_response(&mut self) -> (res: Option<Vec<u8>>)
        ensures
            optional_bytes(res) == old(self)@.response,
            final(self)@ == (NcpModel { response: None, ..old(self)@ }),
    {
        self.response.take()
    }

    /// Where the pending command stands. An answer is handed out once.
    pub fn progress(&mut self) -> (res: Progress)
        ensures
            final(self)@ == (NcpModel { response: None, ..old(self)@ }),
            match res {
                Progress::Answered(parameters) => old(self)@.response == Some(parameters@),
                Progress::Lost => old(self)@.response is None && old(self)@.lost(),
                Progress::Waiting => old(self)@.response is None && !old(self)@.lost(),
            },
    {
        match self.take_response() {
            Some(parameters) => Progress::Answered(parameters),
            None => if !self.ash.is_connected() || self.reset_seen {
                Progress::Lost
            } else {
                Progress::Waiting
            },
        }
    }

    /// Decodes a command's answer for the version in use.
    ///
    /// # Errors
    ///
    /// Whatever the response's own decoding reports, and
    /// [`EzspError::TrailingBytes`] where bytes are left over. That is almost
    /// always a field width wrong for this version, and is reported rather
    /// than ignored because everything decoded so far will have looked
    /// plausible.
    pub fn decode_answer<C: Command>(&self, parameters: &[u8]) -> (res: Result<
        C::Response,
        EzspError,
    >)
        ensures
            is_decoding::<C>(parameters@, self@.version, res),
    {
        let mut reader = Reader::new(parameters, self.version);
        let decoded = C::Response::decode(&mut reader)?;
        if !reader.is_empty() {
            return Err(
                EzspError::TrailingBytes { frame_id: FrameId(C::ID), extra: reader.remaining() },
            );
        }
        Ok(decoded)
    }

    /// Gives up on a command that went unanswered, and says why it did.
    /// `outcome` is what ended the wait: `Ok` for a deadline or a lost link,
    /// else the failure.
    ///
    /// Which failure it was matters: a reset means the command was lost and
    /// the link must be re-established, where a timeout means only that this
    /// command went unanswered.
    pub fn give_up(&mut self, frame_id: FrameId, outcome: Result<(), EzspError>) -> (res:
        EzspError)
        requires
            old(self)@.wf(),
        ensures
            final(self)@.wf(),
            res == old(self)@.unanswered(frame_id, outcome),
            final(self)@ == old(self)@.after_unanswered(outcome),
    {
        if !self.ash.is_connected() || self.reset_seen {
            self.pending_format = None;
            if let Err(error) = self.correlator.on_ncp_reset() {
                return error;
            }
        }
        if let Err(error) = outcome {
            return error;
        }
        self.pending_format = None;
        if let Err(error) = self.correlator.time_out() {
            return error;
        }
        EzspError::Timeout { frame_id }
    }

    /// Ends a command: its response where an answer arrived, whatever else
    /// ended the wait, and else why there is none.
    ///
    /// # Errors
    ///
    /// As [`Self::decode_answer`] and [`Self::give_up`] say.
    pub fn conclude<C: Command>(
        &mut self,
        answer: Option<Vec<u8>>,
        outcome: Result<(), EzspError>,
    ) -> (res: Result<C::Response, EzspError>)
        requires
            old(self)@.wf(),
        ensures
            final(self)@.wf(),
            match answer {
                Some(parameters) => {
                    &&& is_decoding::<C>(parameters@, old(self)@.version, res)
                    &&& final(self)@ == old(self)@
                },
                None => {
                    &&& res == Err::<C::Response, EzspError>(
                        old(self)@.unanswered(FrameId(C::ID), outcome),
                    )
                    &&& final(self)@ == old(self)@.after_unanswered(outcome)
                },
            },
    {
        match answer {
            Some(parameters) => self.decode_answer::<C>(parameters.as_slice()),
            None => Err(self.give_up(FrameId(C::ID), outcome)),
        }
    }

    /// The `version` command that opens negotiation.
    pub fn offer() -> (res: Version)
        ensures
            res == (Version { desired: ProtocolVersion(ProtocolVersion::PREFERRED) }),
    {
        Version { desired: ProtocolVersion::new(ProtocolVersion::PREFERRED) }
    }

    /// What follows from the NCP's answer to the offered version.
    ///
    /// The host offers a version; the NCP answers with the one it runs. If
    /// those differ, the host must send `version` **again, carrying the NCP's
    /// version**, and only then is negotiation complete. Until it is, the NCP
    /// answers every other command with `INVALID_COMMAND` and
    /// `ERROR_VERSION_NOT_SET`.
    ///
    /// # Errors
    ///
    /// [`EzspError::UnsupportedVersion`] when the NCP runs another stack, or a
    /// version this build does not know the wire format for. Refused rather
    /// than attempted: a wrong field width yields plausible wrong values, not
    /// an error.
    pub fn judge_offer(offered: Version, first: VersionResponse) -> (res: Result<
        Negotiation,
        EzspError,
    >)
        ensures
            res == offer_verdict(offered, first),
    {
        // The stack type is checked before anything else is trusted: a
        // non-mesh stack answers these commands with a different meaning.
        if first.stack_type != STACK_TYPE_MESH {
            return Err(EzspError::UnsupportedVersion { negotiated: first.protocol_version });
        }
        if !first.protocol_version.is_supported() {
            return Err(EzspError::UnsupportedVersion { negotiated: first.protocol_version });
        }
        if first.protocol_version == offered.desired {
            return Ok(Negotiation::Settled(first));
        }
        Ok(Negotiation::Confirm(Version { desired: first.protocol_version }))
    }

    /// What follows from the NCP's answer to its own version.
    ///
    /// # Errors
    ///
    /// [`EzspError::UnsupportedVersion`] when the NCP changed its mind.
    /// Nothing sensible follows from that.
    pub fn judge_agreement(agreed: Version, second: VersionResponse) -> (res: Result<
        VersionResponse,
        EzspError,
    >)
        ensures
            res == agreement_verdict(agreed, second),
    {
        if second.protocol_version != agreed.desired {
            return Err(EzspError::UnsupportedVersion { negotiated: second.protocol_version });
        }
        Ok(second)
    }

    /// Takes negotiation one exchange further: given the `version` command
    /// that was sent and its answer, the one to send next, or none once the
    /// version is agreed and adopted.
    ///
    /// # Errors
    ///
    /// As [`Self::judge_offer`] and [`Self::judge_agreement`] say. Nothing is
    /// adopted then.
    pub fn negotiate(&mut self, sent: Version, answer: VersionResponse) -> (res: Result<
        Option<Version>,
        EzspError,
    >)
        requires
            old(self)@.wf(),
        ensures
            final(self)@.wf(),
            res == next_version(sent, answer),
            final(self)@ == if res == Ok::<Option<Version>, EzspError>(None) {
                old(self)@.settled(answer)
            } else {
                old(self)@
            },
    {
        if sent.desired == Ncp::offer().desired {
            match Ncp::judge_offer(sent, answer)? {
                Negotiation::Settled(settled) => {
                    self.settle(settled);
                    Ok(None)
                },
                Negotiation::Confirm(agreed) => Ok(Some(agreed)),
            }
        } else {
            let settled = Ncp::judge_agreement(sent, answer)?;
            self.settle(settled);
            Ok(None)
        }
    }

    /// Adopts the agreed version: everything afterwards is encoded for it.
    pub fn settle(&mut self, negotiated: VersionResponse)
        requires
            old(self)@.wf(),
        ensures
            final(self)@.wf(),
            final(self)@ == old(self)@.settled(negotiated),
    {
        self.version = negotiated.protocol_version;
        self.stack_version = negotiated.stack_version;
    }
}

/// Maps a transport failure into the EZSP error type.
pub fn map_transport(error: &TransportError) -> (res: EzspError)
    ensures
        res matches EzspError::Transport { reason } && reason@ == error.message(),
{
    EzspError::Transport { reason: error.to_string() }
}

/// Handling frames leaves alone what only the host decides, and does not touch
/// the decoder.
pub proof fn frames_leave_the_host_side_alone(ncp: NcpModel, list: Seq<DecodedModel>)
    ensures
        ncp.absorbed_all(list).version == ncp.version,
        ncp.absorbed_all(list).stack_version == ncp.stack_version,
        ncp.absorbed_all(list).initial_version_sent == ncp.initial_version_sent,
        ncp.absorbed_all(list).correlator.next_sequence == ncp.correlator.next_sequence,
        ncp.absorbed_all(list).decoder == ncp.decoder,
    decreases list.len(),
{
    if list.len() > 0 {
        frames_leave_the_host_side_alone(ncp, list.drop_last());
    }
}

/// Callbacks are queued, never dropped: whatever is handled, those that were
/// waiting still are, in their order.
pub proof fn callbacks_are_never_dropped(ncp: NcpModel, list: Seq<DecodedModel>)
    ensures
        ncp.callbacks.len() <= ncp.absorbed_all(list).callbacks.len(),
        ncp.absorbed_all(list).callbacks.take(ncp.callbacks.len() as int) == ncp.callbacks,
    decreases list.len(),
{
    if list.len() > 0 {
        callbacks_are_never_dropped(ncp, list.drop_last());
        let before = ncp.absorbed_all(list.drop_last()).callbacks;
        let after = ncp.absorbed_all(list).callbacks;
        assert(after.take(before.len() as int) =~= before);
        assert(after.take(ncp.callbacks.len() as int) =~= before.take(ncp.callbacks.len() as int));
    } else {
        assert(ncp.callbacks.take(ncp.callbacks.len() as int) =~= ncp.callbacks);
    }
}

/// Handling two lists one after the other is handling their concatenation.
proof fn absorbing_in_two_steps(ncp: NcpModel, first: Seq<DecodedModel>, second: Seq<DecodedModel>)
    ensures
        ncp.absorbed_all(first + second) == ncp.absorbed_all(first).absorbed_all(second),
    decreases second.len(),
{
    if second.len() == 0 {
        assert(first + second =~= first);
    } else {
        absorbing_in_two_steps(ncp, first, second.drop_last());
        assert((first + second).drop_last() =~= first + second.drop_last());
    }
}

/// What frames do does not depend on what the decoder holds.
proof fn absorbing_ignores_the_decoder(
    ncp: NcpModel,
    list: Seq<DecodedModel>,
    decoder: DecoderModel,
)
    ensures
        (NcpModel { decoder, ..ncp }).absorbed_all(list) == (NcpModel {
            decoder,
            ..ncp.absorbed_all(list)
        }),
    decreases list.len(),
{
    if list.len() > 0 {
        absorbing_ignores_the_decoder(ncp, list.drop_last(), decoder);
    }
}

/// Read boundaries do not matter to the conversation: bytes that arrive in two
/// reads do what they do in one.
pub proof fn conversation_ignores_read_boundaries(ncp: NcpModel, first: Seq<u8>, second: Seq<u8>)
    ensures
        ncp.after_bytes(first + second) == ncp.after_bytes(first).after_bytes(second),
{
    read_boundaries_do_not_matter(ncp.decoder, first, second);
    let middle = ncp.decoder.after_all(first);
    let end = ncp.decoder.after_all(first + second);
    let head = ncp.decoder.yields_all(first);
    let tail = middle.yields_all(second);
    frames_leave_the_host_side_alone(NcpModel { decoder: middle, ..ncp }, head);
    absorbing_in_two_steps(NcpModel { decoder: end, ..ncp }, head, tail);
    absorbing_ignores_the_decoder(ncp, head, end);
    absorbing_ignores_the_decoder(ncp, head, middle);
}

/// What the wire form of one frame does to a conversation between frames.
proof fn one_frame(ncp: NcpModel, frame: FrameModel)
    requires
        ncp.decoder == DecoderModel::clean(),
        frame.reduced() == frame,
        frame.body().len() <= MAX_DATA_FIELD_LEN,
    ensures
        ncp.after_bytes(wire(frame)) == ncp.absorbed(DecodedModel::Frame(frame)),
{
    encoded_frames_decode(frame);
    let list = seq![DecodedModel::Frame(frame)];
    assert(list.drop_last() =~= seq![]);
    assert(ncp.absorbed_all(list.drop_last()) == ncp);
    assert(ncp.absorbed_all(list) == ncp.absorbed(list.last()));
}

/// The data frame with which the NCP carries an EZSP frame to the host: the
/// next one expected.
pub open spec fn carrier(
    ncp: NcpModel,
    ack_num: u8,
    retransmit: bool,
    ezsp: Seq<u8>,
) -> FrameModel {
    FrameModel::Data { frame_num: ncp.ash.next_rx_frame, ack_num, retransmit, payload: ezsp }
}

/// From wire to caller: the bytes of an answered reset connect, whatever the
/// link was doing, with both numberings at zero and nothing outstanding on it.
pub proof fn an_answered_reset_connects(ncp: NcpModel, version: u8, reset_code: u8)
    requires
        ncp.decoder == DecoderModel::clean(),
    ensures
        ({
            let after = ncp.after_bytes(wire(FrameModel::RstAck { version, reset_code }));
            &&& after.connected()
            &&& after.ash == ConnectionModel::fresh(ConnectionState::Connected)
            &&& after.decoder == DecoderModel::clean()
        }),
{
    one_frame(ncp, FrameModel::RstAck { version, reset_code });
}

/// From wire to caller: the bytes of a response that passes every guard give
/// the pending command its parameters, end the wait, and touch no callback.
pub proof fn an_answer_reaches_its_command(
    ncp: NcpModel,
    ack_num: u8,
    retransmit: bool,
    ezsp: Seq<u8>,
)
    requires
        ncp.wf(),
        ncp.decoder == DecoderModel::clean(),
        ack_num < 8,
        ezsp.len() <= MAX_DATA_FIELD_LEN,
        parse_failure(ezsp, ncp.inbound_format(ezsp)) is None,
        ncp.correlator.is_answer(parts(ezsp, ncp.inbound_format(ezsp))),
    ensures
        ({
            let after = ncp.after_bytes(wire(carrier(ncp, ack_num, retransmit, ezsp)));
            &&& after.response == Some(parts(ezsp, ncp.inbound_format(ezsp)).parameters)
            &&& after.correlator.pending is None
            &&& after.pending_format is None
            &&& after.callbacks == ncp.callbacks
        }),
{
    one_frame(ncp, carrier(ncp, ack_num, retransmit, ezsp));
}

/// From wire to caller: the bytes of a callback queue it, read with the
/// extended header, and leave the pending command waiting, whatever command
/// that is and whatever sequence number and id the callback carries.
pub proof fn a_callback_is_queued_and_answers_nothing(
    ncp: NcpModel,
    ack_num: u8,
    retransmit: bool,
    ezsp: Seq<u8>,
)
    requires
        ncp.wf(),
        ncp.decoder == DecoderModel::clean(),
        ack_num < 8,
        ezsp.len() <= MAX_DATA_FIELD_LEN,
        parse_failure(ezsp, HeaderFormat::Extended) is None,
        parts(ezsp, HeaderFormat::Extended).control.is_callback,
    ensures
        ({
            let after = ncp.after_bytes(wire(carrier(ncp, ack_num, retransmit, ezsp)));
            let frame = parts(ezsp, HeaderFormat::Extended);
            &&& after.response == ncp.response
            &&& after.correlator == ncp.correlator
            &&& after.pending_format == ncp.pending_format
            &&& after.callbacks == if Callback::layout(
                frame.frame_id,
                frame.parameters,
                ncp.version,
            ) is Whole {
                ncp.callbacks.push(
                    Callback::at_start_of(frame.frame_id, frame.parameters, ncp.version),
                )
            } else {
                ncp.callbacks
            }
        }),
{
    one_frame(ncp, carrier(ncp, ack_num, retransmit, ezsp));
}

/// Where a frame changes the parked answer, it delivered a response that passes
/// every guard, and its parameters are what is parked.
pub proof fn only_an_answer_is_parked(ncp: NcpModel, decoded: DecodedModel)
    requires
        ncp.absorbed(decoded).response != ncp.response,
    ensures
        ncp.delivery(decoded) matches Some(ezsp) && {
            let format = ncp.inbound_format(ezsp);
            &&& parse_failure(ezsp, format) is None
            &&& ncp.correlator.is_answer(parts(ezsp, format))
            &&& ncp.absorbed(decoded).response == Some(parts(ezsp, format).parameters)
        },
{
}

/// A pending command goes on waiting, whatever frames arrive, until its answer
/// is delivered.
pub proof fn a_command_waits_for_its_answer(ncp: NcpModel, list: Seq<DecodedModel>)
    requires
        ncp.correlator.pending is Some,
        ncp.absorbed_all(list).response is None,
    ensures
        ncp.absorbed_all(list).correlator.pending == ncp.correlator.pending,
        ncp.absorbed_all(list).pending_format == ncp.pending_format,
    decreases list.len(),
{
    if list.len() > 0 {
        a_command_waits_for_its_answer(ncp, list.drop_last());
    }
}

/// Whether frame `i` of a list is what answers a command that was just issued:
/// it delivers an EZSP frame that parses, is a response and no callback, and
/// carries the sequence number and the id that were sent; and what is parked in
/// the end are that frame's parameters.
pub open spec fn answered_by(
    ncp: NcpModel,
    id: FrameId,
    ps: Seq<u8>,
    list: Seq<DecodedModel>,
    i: int,
) -> bool {
    let issued = ncp.after_issue(id, ps, None);
    let then = issued.absorbed_all(list.take(i));
    &&& then.delivery(list[i]) matches Some(ezsp) && {
        let format = then.inbound_format(ezsp);
        let frame = parts(ezsp, format);
        &&& parse_failure(ezsp, format) is None
        &&& !frame.control.is_callback
        &&& frame.control.direction == Direction::Response
        &&& frame.sequence == ncp.correlator.next_sequence
        &&& frame.frame_id == id
        &&& issued.absorbed_all(list).response == Some(frame.parameters)
    }
}

/// Whatever frames arrive, a command that is still outstanding has no answer.
proof fn an_answer_ends_the_wait(ncp: NcpModel, list: Seq<DecodedModel>)
    requires
        ncp.correlator.pending is Some ==> ncp.response is None,
    ensures
        ncp.absorbed_all(list).correlator.pending is Some ==> ncp.absorbed_all(list).response
            is None,
    decreases list.len(),
{
    if list.len() > 0 {
        an_answer_ends_the_wait(ncp, list.drop_last());
    }
}

/// Nothing but its own answer answers a command: where an answer is there after
/// a command was issued and any frames were handled, one of these frames is a
/// response to that very command, and the answer is what it carried.
pub proof fn only_its_own_answer_answers(
    ncp: NcpModel,
    id: FrameId,
    ps: Seq<u8>,
    list: Seq<DecodedModel>,
)
    requires
        ncp.wf(),
        ncp.issue(id, ps, None) is Ok,
        ncp.after_issue(id, ps, None).absorbed_all(list).response is Some,
    ensures
        exists|i: int| 0 <= i < list.len() && answered_by(ncp, id, ps, list, i),
    decreases list.len(),
{
    let issued = ncp.after_issue(id, ps, None);
    assert(list.len() > 0);
    let head = list.drop_last();
    let last = list.len() - 1;
    let then = issued.absorbed_all(head);
    assert(list.take(last) =~= head);
    if then.response is Some {
        only_its_own_answer_answers(ncp, id, ps, head);
        let i = choose|i: int| 0 <= i < head.len() && answered_by(ncp, id, ps, head, i);
        an_answer_ends_the_wait(issued, head);
        assert(then.absorbed(list.last()).response == then.response);
        assert(head.take(i) =~= list.take(i));
        assert(head[i] == list[i]);
        assert(answered_by(ncp, id, ps, list, i));
    } else {
        a_command_waits_for_its_answer(issued, head);
        only_an_answer_is_parked(then, list.last());
        assert(answered_by(ncp, id, ps, list, last));
    }
}

/// With nothing outstanding, whatever arrives is read with the extended
/// header, also after a command that went out legacy; and so is a callback
/// while one is pending.
pub proof fn unsolicited_frames_are_extended(ncp: NcpModel, payload: Seq<u8>)
    requires
        ncp.wf(),
        ncp.correlator.pending is None || (payload.len() >= 2 && FrameControl::of_low_byte(
            payload[1],
        ).is_callback),
    ensures
        ncp.inbound_format(payload) == HeaderFormat::Extended,
{
}

/// A list without a command keeps every other one.
proof fn without_keeps_the_others(list: Seq<Pending>, command: Pending, other: Pending)
    requires
        list.contains(other),
        other != command,
    ensures
        without(list, command).contains(other),
    decreases list.len(),
{
    let i = choose|i: int| 0 <= i < list.len() && list[i] == other;
    let head = list.drop_last();
    if i < head.len() {
        assert(head[i] == other);
        without_keeps_the_others(head, command, other);
        let kept = without(head, command);
        let j = choose|j: int| 0 <= j < kept.len() && kept[j] == other;
        if list.last() != command {
            assert(kept.push(list.last())[j] == other);
        }
    } else {
        let kept = without(head, command);
        assert(kept.push(list.last())[kept.len() as int] == other);
    }
}

/// Once a key-bearing command has been sent, what arrives is hidden.
pub proof fn key_bearing_commands_hide_what_arrives(
    ncp: NcpModel,
    frame_id: FrameId,
    parameters: Seq<u8>,
)
    requires
        frame_id.is_secret(),
        ncp.issue(frame_id, parameters, None) is Ok,
    ensures
        ncp.after_issue(frame_id, parameters, None).hides(),
        ncp.after_issue(frame_id, parameters, None).secrets_due.contains(
            Pending { sequence: ncp.correlator.next_sequence, frame_id },
        ),
{
    let command = Pending { sequence: ncp.correlator.next_sequence, frame_id };
    let due = ncp.after_issue(frame_id, parameters, None).secrets_due;
    assert(due.last() == command);
}

/// And stays hidden: as long as the answer of a key-bearing command has not
/// come and the NCP has not reset, whatever frame arrives and whatever the host
/// does, giving up included, leaves that command due.
pub proof fn a_key_stays_due_until_answered(
    ncp: NcpModel,
    command: Pending,
    decoded: DecodedModel,
    frame_id: FrameId,
    parameters: Seq<u8>,
    failure: Option<EzspError>,
    outcome: Result<(), EzspError>,
)
    requires
        ncp.secrets_due.contains(command),
        !(decoded matches DecodedModel::Frame(frame) && frame is RstAck),
        !(ncp.delivery(decoded) matches Some(ezsp) && {
            let frame = parts(ezsp, ncp.inbound_format(ezsp));
            &&& parse_failure(ezsp, ncp.inbound_format(ezsp)) is None
            &&& !frame.control.is_callback
            &&& frame.control.direction == Direction::Response
            &&& frame.sequence == command.sequence
            &&& frame.frame_id == command.frame_id
        }),
    ensures
        ncp.hides(),
        ncp.absorbed(decoded).secrets_due.contains(command),
        ncp.after_issue(frame_id, parameters, failure).secrets_due.contains(command),
        ncp.after_unanswered(outcome).secrets_due.contains(command),
{
    let i = choose|i: int| 0 <= i < ncp.secrets_due.len() && ncp.secrets_due[i] == command;
    assert(ncp.secrets_due[i] == command);
    if let Some(ezsp) = ncp.delivery(decoded) {
        let frame = parts(ezsp, ncp.inbound_format(ezsp));
        let answered = Pending { sequence: frame.sequence, frame_id: frame.frame_id };
        if answered != command {
            without_keeps_the_others(ncp.secrets_due, answered, command);
        }
    }
    let issued = Pending { sequence: ncp.correlator.next_sequence, frame_id };
    let rest = without(ncp.secrets_due, issued);
    if issued == command {
        assert(rest.push(issued)[rest.len() as int] == command);
    } else {
        without_keeps_the_others(ncp.secrets_due, issued, command);
        let j = choose|j: int| 0 <= j < rest.len() && rest[j] == command;
        assert(rest.push(issued)[j] == command);
    }
}

/// The legacy header is spent by the first `version` and by nothing else:
/// afterwards every command goes out extended.
pub proof fn the_legacy_header_is_used_once(
    ncp: NcpModel,
    first: FrameId,
    later: FrameId,
    parameters: Seq<u8>,
)
    requires
        ncp.issue(first, parameters, None) is Ok,
        ncp.format_for(first) == HeaderFormat::Legacy || ncp.initial_version_sent,
    ensures
        ncp.after_issue(first, parameters, None).format_for(later) == HeaderFormat::Extended,
        first.0 != FrameId::VERSION ==> ncp.format_for(first) == HeaderFormat::Extended,
{
}

/// What is written for a command is what the other end reads: a decoder
/// between frames yields one data frame whose payload parses, in the format
/// chosen, to the command's id, sequence number and parameters.
pub proof fn an_issued_command_arrives(ncp: NcpModel, frame_id: FrameId, parameters: Seq<u8>)
    requires
        ncp.wf(),
        ncp.issue(frame_id, parameters, None) is Ok,
    ensures
        ({
            let ezsp = ncp.command_frame(frame_id, parameters);
            let format = ncp.format_for(frame_id);
            &&& ncp.issue(frame_id, parameters, None) == Ok::<Seq<u8>, EzspError>(
                wire(ncp.ash.data_frame(ezsp)),
            )
            &&& DecoderModel::clean().yields_all(wire(ncp.ash.data_frame(ezsp))) == seq![
                DecodedModel::Frame(ncp.ash.data_frame(ezsp)),
            ]
            &&& parse_failure(ezsp, format) is None
            &&& parts(ezsp, format).frame_id == frame_id
            &&& parts(ezsp, format).sequence == ncp.correlator.next_sequence
            &&& parts(ezsp, format).parameters == parameters
        }),
{
    let ezsp = ncp.command_frame(frame_id, parameters);
    let format = ncp.format_for(frame_id);
    encoded_frames_decode(ncp.ash.data_frame(ezsp));
    assert(ncp.ash.data_frame(ezsp).reduced() == ncp.ash.data_frame(ezsp));
    assert(expressible(frame_id, format));
    assert(header(ncp.correlator.next_sequence, frame_id, format).len() == format.width());
    headers_round_trip(ncp.correlator.next_sequence, frame_id, format, parameters);
}

/// An NCP that resets while a command is outstanding loses it: the wait is
/// over, and the failure is a reset that names the command, not a timeout.
pub proof fn a_reset_loses_the_pending_command(
    ncp: NcpModel,
    frame: FrameModel,
    frame_id: FrameId,
    outcome: Result<(), EzspError>,
)
    requires
        frame is RstAck || frame is Error,
        ncp.correlator.pending is Some,
    ensures
        ({
            let after = ncp.absorbed(DecodedModel::Frame(frame));
            &&& after.lost()
            &&& after.unanswered(frame_id, outcome) == (EzspError::NcpReset {
                frame_id: ncp.correlator.pending->0.frame_id,
            })
            &&& after.after_unanswered(outcome).correlator.next_sequence == 0
            &&& after.after_unanswered(outcome).correlator.pending is None
        }),
{
}

/// A deadline that passes on a live link is reported as a timeout naming the
/// command, and the next command may be sent.
pub proof fn a_deadline_names_its_command(ncp: NcpModel, frame_id: FrameId)
    requires
        !ncp.lost(),
        ncp.correlator.pending is Some,
    ensures
        ncp.unanswered(frame_id, Ok(())) == (EzspError::Timeout {
            frame_id: ncp.correlator.pending->0.frame_id,
        }),
        ncp.after_unanswered(Ok(())).correlator.pending is None,
{
}

/// Negotiation takes at most two exchanges, the second exactly when the NCP
/// runs another version than the one offered, and ends in a version that both
/// ends speak or not at all.
pub proof fn negotiation_ends_in_a_spoken_version(first: VersionResponse, second: VersionResponse)
    ensures
        ({
            let offer = Version { desired: ProtocolVersion(ProtocolVersion::PREFERRED) };
            match next_version(offer, first) {
                Ok(None) => {
                    &&& first.protocol_version == offer.desired
                    &&& first.protocol_version.supported()
                },
                Ok(Some(confirm)) => {
                    &&& first.protocol_version != offer.desired
                    &&& first.protocol_version.supported()
                    &&& confirm.desired == first.protocol_version
                    &&& match next_version(confirm, second) {
                        Ok(None) => second.protocol_version == first.protocol_version,
                        Ok(Some(_)) => false,
                        Err(error) => error == (EzspError::UnsupportedVersion {
                            negotiated: second.protocol_version,
                        }),
                    }
                },
                Err(error) => {
                    &&& first.stack_type != STACK_TYPE_MESH || !first.protocol_version.supported()
                    &&& error == (EzspError::UnsupportedVersion {
                        negotiated: first.protocol_version,
                    })
                },
            }
        }),
{
}

} // verus!
