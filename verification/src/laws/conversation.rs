//! One conversation: what is sent, what arrives, how a command ends.

use vstd::prelude::*;

use crate::ash::codec::{decoded_models, wire, Decoded, DecodedModel, DecoderModel};
use crate::ash::error::AshError;
use crate::ash::frame::FrameModel;
use crate::ash::state::{ConnectionState, OutboundModel};
use crate::ezsp::callback::Callback;
use crate::ezsp::codec::{EzspDecode, Extent};
use crate::ezsp::command::{Command, Version, VersionResponse};
use crate::ezsp::correlation::Pending;
use crate::ezsp::error::EzspError;
use crate::ezsp::frame::{parse_failure, parts, Direction, FrameId, HeaderFormat};
use crate::ezsp::version::ProtocolVersion;
use crate::laws::bytes::{numbers_go_out_little_endian, word};
use crate::laws::framing::long_data_fields_are_refused;
use crate::ncp::{
    agreement_verdict, callback_models, framed, framed_reply, is_decoding, next_version,
    offer_verdict, optional_bytes, resulting_bytes, without, NcpModel, Negotiation,
};
use crate::transport::fake::{chunk_bytes, FakeTransportModel};

verus! {

/// A conversation that has not begun: disconnected, nothing received, nothing
/// outstanding, the offered version nineteen, and the legacy header unspent.
pub proof fn conversations_begin_empty()
    ensures
        ({
            let fresh = NcpModel::fresh();
            &&& fresh.ash.state == ConnectionState::Disconnected
            &&& fresh.ash.next_tx_frame == 0
            &&& fresh.ash.next_rx_frame == 0
            &&& fresh.ash.in_flight.len() == 0
            &&& fresh.decoder == DecoderModel::clean()
            &&& fresh.correlator.pending is None
            &&& fresh.correlator.next_sequence == 0
            &&& fresh.version.0 == 19
            &&& fresh.stack_version == 0
            &&& fresh.callbacks.len() == 0
            &&& fresh.response is None
            &&& !fresh.initial_version_sent
            &&& fresh.pending_format is None
            &&& !fresh.reset_seen
            &&& fresh.secrets_due.len() == 0
        }),
{
}

/// Whether two conversations agree on what no command of the host changes.
pub open spec fn same_surroundings(a: NcpModel, b: NcpModel) -> bool {
    &&& a.decoder == b.decoder
    &&& a.version == b.version
    &&& a.stack_version == b.stack_version
    &&& a.callbacks == b.callbacks
}

/// Issuing a command while one is outstanding is refused by the sequence number
/// of that one and changes nothing.
pub proof fn a_second_command_is_refused(
    ncp: NcpModel,
    frame_id: FrameId,
    parameters: Seq<u8>,
    failure: Option<EzspError>,
)
    requires
        ncp.correlator.pending is Some,
    ensures
        ncp.issue(frame_id, parameters, failure) == Err::<Seq<u8>, EzspError>(
            EzspError::SequenceMismatch { sequence: ncp.correlator.pending->0.sequence },
        ),
        ncp.after_issue(frame_id, parameters, failure) == ncp,
{
}

/// The bytes of a command's EZSP frame: three of header where it is the first
/// `version`, else five, with the next sequence number and the id, and then the
/// parameters.
pub proof fn command_frames_are_laid_out(ncp: NcpModel, frame_id: FrameId, parameters: Seq<u8>)
    ensures
        ({
            let frame = ncp.command_frame(frame_id, parameters);
            if frame_id.0 == 0 && !ncp.initial_version_sent {
                &&& ncp.format_for(frame_id) == HeaderFormat::Legacy
                &&& frame.len() == 3 + parameters.len()
                &&& frame[0] == ncp.correlator.next_sequence
                &&& frame[1] == 0
                &&& frame[2] == 0
                &&& frame.skip(3) == parameters
            } else {
                &&& ncp.format_for(frame_id) == HeaderFormat::Extended
                &&& frame.len() == 5 + parameters.len()
                &&& frame[0] == ncp.correlator.next_sequence
                &&& frame[1] == 0
                &&& frame[2] == 1
                &&& word(frame, 3) == frame_id.0
                &&& frame.skip(5) == parameters
            }
        }),
{
    let frame = ncp.command_frame(frame_id, parameters);
    numbers_go_out_little_endian(frame_id.0, 0, 0);
    if frame_id.0 == 0 && !ncp.initial_version_sent {
        assert(frame.skip(3) =~= parameters);
    } else {
        assert(frame.skip(5) =~= parameters);
    }
}

/// Issuing a command with nothing outstanding: what comes of it, in the order
/// in which it can fail. The bytes written are the wire form of a data frame
/// that carries the command's EZSP frame under the link's numbers.
pub proof fn commands_are_issued(
    ncp: NcpModel,
    frame_id: FrameId,
    parameters: Seq<u8>,
    failure: Option<EzspError>,
)
    requires
        ncp.wf(),
        ncp.correlator.pending is None,
        parameters.len() <= usize::MAX - 8,
    ensures
        ({
            let frame = ncp.command_frame(frame_id, parameters);
            let length = frame.len();
            let issued = ncp.issue(frame_id, parameters, failure);
            match failure {
                Some(error) => issued == Err::<Seq<u8>, EzspError>(error),
                None => issued == if length > 218 {
                    Err::<Seq<u8>, EzspError>(
                        EzspError::FrameTooLong { length: length as usize, limit: 218 },
                    )
                } else if !(ncp.ash.state == ConnectionState::Connected) {
                    Err(EzspError::Ash(AshError::NotConnected))
                } else if ncp.ash.in_flight.len() >= 7 {
                    Err(EzspError::Ash(AshError::WindowFull { outstanding: 7, limit: 7 }))
                } else if length > 130 {
                    Err(
                        EzspError::Ash(
                            AshError::TooLong { length: (length + 3) as usize, maximum: 133 },
                        ),
                    )
                } else if length > 128 {
                    Err(
                        EzspError::Ash(AshError::TooLong { length: length as usize, maximum: 128 }),
                    )
                } else {
                    Ok(
                        wire(
                            FrameModel::Data {
                                frame_num: ncp.ash.next_tx_frame,
                                ack_num: ncp.ash.next_rx_frame,
                                retransmit: false,
                                payload: frame,
                            },
                        ),
                    )
                },
            }
        }),
{
    long_data_fields_are_refused(
        ncp.ash.data_frame(ncp.command_frame(frame_id, parameters)),
    );
}

/// What issuing a command with nothing outstanding leaves behind: the command
/// outstanding under the next sequence number, no answer, no reset seen, and
/// nothing received lost. The legacy header is spent once the frame is ready;
/// the link's queue and the list of keys due change only where the link takes
/// the frame.
pub proof fn issued_commands_are_outstanding(
    ncp: NcpModel,
    frame_id: FrameId,
    parameters: Seq<u8>,
    failure: Option<EzspError>,
)
    requires
        ncp.correlator.pending is None,
    ensures
        ({
            let frame = ncp.command_frame(frame_id, parameters);
            let after = ncp.after_issue(frame_id, parameters, failure);
            let command = Pending { sequence: ncp.correlator.next_sequence, frame_id };
            let first = frame_id.0 == 0 && !ncp.initial_version_sent;
            let ready = failure is None && frame.len() <= 218;
            let taken = ready && ncp.ash.state == ConnectionState::Connected
                && ncp.ash.in_flight.len() < 7;
            let key = frame_id.0 == 0x0068 || frame_id.0 == 0x0111 || frame_id.0 == 0x0114
                || frame_id.0 == 0x0116;
            &&& same_surroundings(ncp, after)
            &&& after.correlator.pending == Some(command)
            &&& after.correlator.next_sequence == (ncp.correlator.next_sequence + 1) % 256
            &&& after.correlator.stale_frames == ncp.correlator.stale_frames
            &&& after.response is None
            &&& !after.reset_seen
            &&& after.pending_format == Some(
                if first { HeaderFormat::Legacy } else { HeaderFormat::Extended },
            )
            &&& after.initial_version_sent <==> ncp.initial_version_sent || (first && ready)
            &&& after.ash == if taken { ncp.ash.after_send(frame) } else { ncp.ash }
            &&& taken && key ==> after.secrets_due.last() == command
                && after.secrets_due.drop_last() == without(ncp.secrets_due, command)
            &&& !(taken && key) ==> after.secrets_due == ncp.secrets_due
        }),
{
    let after = ncp.after_issue(frame_id, parameters, failure);
    let command = Pending { sequence: ncp.correlator.next_sequence, frame_id };
    let kept = without(ncp.secrets_due, command);
    assert(kept.push(command).drop_last() =~= kept);
}

/// A list without a command: every entry that is not that command, in order.
pub proof fn lists_lose_one_command(list: Seq<Pending>, entry: Pending, command: Pending)
    ensures
        without(Seq::<Pending>::empty(), command) == Seq::<Pending>::empty(),
        without(list.push(entry), command) == if entry.sequence == command.sequence
            && entry.frame_id == command.frame_id {
            without(list, command)
        } else {
            without(list, command).push(entry)
        },
{
    assert(list.push(entry).drop_last() =~= list);
}

/// What arrives is hidden while a key-bearing command is outstanding or due.
pub proof fn keys_hide_what_arrives(ncp: NcpModel)
    ensures
        ncp.hides() <==> ncp.secrets_due.len() > 0 || (ncp.correlator.pending matches Some(pending)
            && (pending.frame_id.0 == 0x0068 || pending.frame_id.0 == 0x0111
            || pending.frame_id.0 == 0x0114 || pending.frame_id.0 == 0x0116)),
{
}

/// What holds of every conversation: a format is remembered exactly while a
/// command is outstanding, one that is outstanding has no answer yet, the
/// decoder's buffer is bounded, and frames flow where the link is connected.
pub proof fn conversations_are_consistent(ncp: NcpModel)
    requires
        ncp.wf(),
    ensures
        ncp.pending_format is Some <==> ncp.correlator.pending is Some,
        ncp.response is Some ==> ncp.correlator.pending is None,
        ncp.decoder.partial.len() <= 133,
        ncp.ash.wf(),
        ncp.connected() <==> ncp.ash.state == ConnectionState::Connected,
{
}

/// What the link hands the conversation: the link moves on, a reset is noted
/// while a command is outstanding and ends the wait for keys, and nothing else
/// changes. A rejected frame changes nothing and delivers nothing.
pub proof fn link_frames_are_handled(ncp: NcpModel, frame: FrameModel, error: AshError)
    ensures
        ({
            let decoded = DecodedModel::Frame(frame);
            let after = ncp.after_decoded(decoded);
            &&& same_surroundings(ncp, after)
            &&& after.ash == ncp.ash.after_frame(frame)
            &&& after.correlator == ncp.correlator
            &&& after.response == ncp.response
            &&& after.initial_version_sent == ncp.initial_version_sent
            &&& after.pending_format == ncp.pending_format
            &&& after.reset_seen <==> ncp.reset_seen || (frame is RstAck
                && ncp.correlator.pending is Some)
            &&& frame is RstAck ==> after.secrets_due.len() == 0
            &&& !(frame is RstAck) ==> after.secrets_due == ncp.secrets_due
            &&& ncp.reply(decoded) == ncp.ash.answers(frame)
            &&& ncp.delivery(decoded) == ncp.ash.delivers(frame)
        }),
        ncp.after_decoded(DecodedModel::Rejected(error)) == ncp,
        ncp.reply(DecodedModel::Rejected(error)) == ncp.ash.answers_failure(error),
        ncp.delivery(DecodedModel::Rejected(error)) is None,
{
}

/// Where a frame's contents go. A callback is read with the extended header,
/// anything else in the format of the pending command. What does not parse
/// leaves no trace; a callback that decodes joins the end of the queue; the
/// pending command's answer is parked and ends the wait; any other frame is
/// counted. Every response strikes its command from the keys due.
pub proof fn frames_are_filed(ncp: NcpModel, payload: Seq<u8>)
    ensures
        ({
            let format = if payload.len() >= 2 && (payload[1] / 16) % 2 == 1 {
                HeaderFormat::Extended
            } else {
                match ncp.pending_format {
                    Some(format) => format,
                    None => HeaderFormat::Extended,
                }
            };
            let frame = parts(payload, format);
            let after = ncp.dispatched(payload);
            let carried = Pending { sequence: frame.sequence, frame_id: frame.frame_id };
            let response = !frame.control.is_callback && frame.control.direction
                == Direction::Response;
            &&& ncp.inbound_format(payload) == format
            &&& parse_failure(payload, format) is Some ==> after == ncp
            &&& parse_failure(payload, format) is None ==> {
                &&& after.ash == ncp.ash
                &&& after.decoder == ncp.decoder
                &&& after.version == ncp.version
                &&& after.stack_version == ncp.stack_version
                &&& after.initial_version_sent == ncp.initial_version_sent
                &&& after.reset_seen == ncp.reset_seen
                &&& after.correlator.next_sequence == ncp.correlator.next_sequence
                &&& after.secrets_due == if response {
                    without(ncp.secrets_due, carried)
                } else {
                    ncp.secrets_due
                }
                &&& if frame.control.is_callback {
                    &&& after.correlator == ncp.correlator
                    &&& after.response == ncp.response
                    &&& after.pending_format == ncp.pending_format
                    &&& after.callbacks == if Callback::layout(
                        frame.frame_id,
                        frame.parameters,
                        ncp.version,
                    ) is Whole {
                        ncp.callbacks.push(
                            Callback::at_start_of(frame.frame_id, frame.parameters, ncp.version),
                        )
                    } else {
                        ncp.callbacks
                    }
                } else if response && ncp.correlator.pending == Some(carried) {
                    &&& after.correlator.pending is None
                    &&& after.correlator.stale_frames == ncp.correlator.stale_frames
                    &&& after.response == Some(frame.parameters)
                    &&& after.pending_format is None
                    &&& after.callbacks == ncp.callbacks
                } else {
                    &&& after.correlator.pending == ncp.correlator.pending
                    &&& after.correlator.stale_frames == if ncp.correlator.stale_frames
                        == u64::MAX {
                        u64::MAX as int
                    } else {
                        ncp.correlator.stale_frames + 1
                    }
                    &&& after.response == ncp.response
                    &&& after.pending_format == ncp.pending_format
                    &&& after.callbacks == ncp.callbacks
                }
            }
        }),
{
    if payload.len() >= 2 {
        let low = payload[1];
        assert(low & 0x10 != 0 <==> (low / 16) % 2 == 1) by (bit_vector);
    }
}

/// How a command that was not answered ends. Where the link is down or the NCP
/// has reset, the command is lost, whatever ended the wait, and sequence
/// numbers start over; else a failure is passed on and the command stays
/// outstanding; else it has timed out and is forgotten.
pub proof fn unanswered_commands_end(
    ncp: NcpModel,
    pending: Pending,
    frame_id: FrameId,
    error: EzspError,
)
    requires
        ncp.correlator.pending == Some(pending),
    ensures
        ({
            let lost = !(ncp.ash.state == ConnectionState::Connected) || ncp.reset_seen;
            let failed: Result<(), EzspError> = Err(error);
            let late: Result<(), EzspError> = Ok(());
            &&& ncp.lost() <==> lost
            &&& lost ==> {
                &&& ncp.unanswered(frame_id, failed) == (EzspError::NcpReset {
                    frame_id: pending.frame_id,
                })
                &&& ncp.unanswered(frame_id, late) == (EzspError::NcpReset {
                    frame_id: pending.frame_id,
                })
                &&& ncp.after_unanswered(failed).correlator.pending is None
                &&& ncp.after_unanswered(failed).correlator.next_sequence == 0
                &&& ncp.after_unanswered(failed).pending_format is None
                &&& ncp.after_unanswered(late) == ncp.after_unanswered(failed)
            }
            &&& !lost ==> {
                &&& ncp.unanswered(frame_id, failed) == error
                &&& ncp.after_unanswered(failed) == ncp
                &&& ncp.unanswered(frame_id, late) == (EzspError::Timeout {
                    frame_id: pending.frame_id,
                })
                &&& ncp.after_unanswered(late).correlator.pending is None
                &&& ncp.after_unanswered(late).correlator.next_sequence
                    == ncp.correlator.next_sequence
                &&& ncp.after_unanswered(late).pending_format is None
            }
        }),
{
}

/// With nothing outstanding, a wait ends in what ended it, or in a timeout of
/// the command that was asked about.
pub proof fn waits_for_nothing_end(
    ncp: NcpModel,
    frame_id: FrameId,
    error: EzspError,
)
    requires
        ncp.correlator.pending is None,
    ensures
        ncp.unanswered(frame_id, Err(error)) == error,
        ncp.unanswered(frame_id, Ok(())) == (EzspError::Timeout { frame_id }),
{
}

/// Giving a command up touches the correlator and the remembered format alone.
pub proof fn giving_up_leaves_the_rest(ncp: NcpModel, outcome: Result<(), EzspError>)
    ensures
        ({
            let after = ncp.after_unanswered(outcome);
            &&& same_surroundings(ncp, after)
            &&& after.ash == ncp.ash
            &&& after.response == ncp.response
            &&& after.initial_version_sent == ncp.initial_version_sent
            &&& after.reset_seen == ncp.reset_seen
            &&& after.secrets_due == ncp.secrets_due
            &&& after.correlator.stale_frames == ncp.correlator.stale_frames
        }),
{
}

/// A command's answer is what its fields say where they take up all the
/// parameters; where bytes are left over, the error says for which command and
/// how many.
pub proof fn answers_take_up_all_parameters<C: Command>(
    parameters: Seq<u8>,
    version: ProtocolVersion,
    res: Result<C::Response, EzspError>,
    width: nat,
    error: EzspError,
)
    requires
        is_decoding::<C>(parameters, version, res),
    ensures
        C::Response::extent(parameters, version) == Extent::Whole(width) && width
            == parameters.len() ==> (res matches Ok(response) && response.read_from(
            parameters,
            version,
        )),
        C::Response::extent(parameters, version) == Extent::Whole(width) && width
            < parameters.len() ==> res == Err::<C::Response, EzspError>(
            EzspError::TrailingBytes {
                frame_id: FrameId(C::ID),
                extra: (parameters.len() - width) as usize,
            },
        ),
        C::Response::extent(parameters, version) == (Extent::Fails { consumed: width, error })
            ==> res == Err::<C::Response, EzspError>(error),
{
}

/// What the NCP's answers to `version` lead to. Another stack than mesh, which
/// is number two, or a version outside thirteen to nineteen is refused; the
/// offered version settles it; any other has to be confirmed, and then given
/// again. Settling adopts both numbers and changes nothing else.
pub proof fn versions_are_negotiated(
    ncp: NcpModel,
    offered: Version,
    answer: VersionResponse,
)
    ensures
        ({
            let refused = EzspError::UnsupportedVersion { negotiated: answer.protocol_version };
            let number = answer.protocol_version.0;
            &&& offer_verdict(offered, answer) == if answer.stack_type != 2 || number < 13
                || number > 19 {
                Err::<Negotiation, EzspError>(refused)
            } else if number == offered.desired.0 {
                Ok(Negotiation::Settled(answer))
            } else {
                Ok(Negotiation::Confirm(Version { desired: answer.protocol_version }))
            }
            &&& agreement_verdict(offered, answer) == if number == offered.desired.0 {
                Ok::<VersionResponse, EzspError>(answer)
            } else {
                Err(refused)
            }
            &&& next_version(offered, answer) == if offered.desired.0 == 19 {
                if answer.stack_type != 2 || number < 13 || number > 19 {
                    Err::<Option<Version>, EzspError>(refused)
                } else if number == 19 {
                    Ok(None)
                } else {
                    Ok(Some(Version { desired: answer.protocol_version }))
                }
            } else if number == offered.desired.0 {
                Ok(None)
            } else {
                Err(refused)
            }
        }),
        ({
            let after = ncp.settled(answer);
            &&& after.version == answer.protocol_version
            &&& after.stack_version == answer.stack_version
            &&& after.ash == ncp.ash
            &&& after.decoder == ncp.decoder
            &&& after.correlator == ncp.correlator
            &&& after.callbacks == ncp.callbacks
            &&& after.response == ncp.response
            &&& after.initial_version_sent == ncp.initial_version_sent
            &&& after.pending_format == ncp.pending_format
            &&& after.reset_seen == ncp.reset_seen
            &&& after.secrets_due == ncp.secrets_due
        }),
{
}

/// What is written for a frame is its wire form, and nothing where there is no
/// frame; a data field past its limit is an error instead.
pub proof fn frames_are_written_or_refused(frame: FrameModel)
    requires
        frame.body().len() <= usize::MAX - 3,
    ensures
        !(frame is Data) || frame.body().len() <= 128 ==> {
            &&& framed(frame) == Ok::<Seq<u8>, EzspError>(wire(frame))
            &&& framed_reply(OutboundModel::Send(frame)) == Ok::<Option<Seq<u8>>, EzspError>(
                Some(wire(frame)),
            )
        },
        frame is Data && frame.body().len() > 128 ==> {
            &&& framed(frame) matches Err(EzspError::Ash(error)) && error is TooLong
            &&& framed_reply(OutboundModel::Send(frame)) matches Err(EzspError::Ash(error))
                && error is TooLong
        },
        framed_reply(OutboundModel::Nothing) == Ok::<Option<Seq<u8>>, EzspError>(None),
{
    long_data_fields_are_refused(frame);
}

/// The models of buffers and lists are their contents.
pub proof fn buffers_are_modelled_by_their_contents(
    bytes: Vec<u8>,
    error: EzspError,
    callbacks: Seq<Callback>,
    frames: Seq<Decoded>,
    chunks: Seq<Vec<u8>>,
    list: Seq<Seq<u8>>,
    at: int,
)
    ensures
        optional_bytes(Some(bytes)) == Some(bytes@),
        optional_bytes(None) is None,
        resulting_bytes(Ok(bytes)) == Ok::<Seq<u8>, EzspError>(bytes@),
        resulting_bytes(Err(error)) == Err::<Seq<u8>, EzspError>(error),
        callback_models(callbacks).len() == callbacks.len(),
        0 <= at < callbacks.len() ==> callback_models(callbacks)[at] == callbacks[at]@,
        decoded_models(frames).len() == frames.len(),
        0 <= at < frames.len() ==> decoded_models(frames)[at] == frames[at]@,
        chunk_bytes(chunks).len() == chunks.len(),
        0 <= at < chunks.len() ==> chunk_bytes(chunks)[at] == chunks[at]@,
        FakeTransportModel::script(list).to_read == list,
        FakeTransportModel::script(list).written.len() == 0,
        FakeTransportModel::script(list).fail_next_read is None,
        !FakeTransportModel::script(list).closed,
{
}

} // verus!
