//! EZSP headers, versions, and which frame answers which command.

use vstd::prelude::*;

use crate::ezsp::correlation::{Classified, ClassifiedModel, CorrelatorModel, Pending};
use crate::ezsp::error::EzspError;
use crate::ezsp::frame::{
    expressible, header, parse_failure, parts, Direction, Frame, FrameControl, FrameId, FrameParts,
    HeaderFormat,
};
use crate::ezsp::version::ProtocolVersion;
use crate::laws::bytes::{numbers_go_out_little_endian, word};

verus! {

/// What the negotiated version decides: 13 to 19 are spoken; from 14 on a
/// status takes four bytes instead of one and a tag two instead of one.
pub proof fn versions_decide_widths(version: ProtocolVersion)
    ensures
        version.supported() <==> 13 <= version.0 && version.0 <= 19,
        version.wide() <==> version.0 >= 14,
        version.status_width() == if version.0 >= 14 { 4nat } else { 1nat },
        version.tag_width() == if version.0 >= 14 { 2nat } else { 1nat },
{
}

/// The bits of a low control byte, by their weights.
pub proof fn control_bits_have_their_weights(low: u8)
    ensures
        ({
            let control = FrameControl::of_low_byte(low);
            &&& control.direction == Direction::Response <==> (low / 128) % 2 == 1
            &&& control.direction == Direction::Command <==> (low / 128) % 2 == 0
            &&& control.is_callback <==> (low / 16) % 2 == 1
            &&& control.callback_pending <==> (low / 4) % 2 == 1
            &&& control.truncated <==> (low / 2) % 2 == 1
            &&& control.overflow <==> low % 2 == 1
            &&& control.raw_low == low
        }),
{
    assert(low & 0x80 != 0 <==> (low / 128) % 2 == 1) by (bit_vector);
    assert(low & 0x10 != 0 <==> (low / 16) % 2 == 1) by (bit_vector);
    assert(low & 0x04 != 0 <==> (low / 4) % 2 == 1) by (bit_vector);
    assert(low & 0x02 != 0 <==> (low / 2) % 2 == 1) by (bit_vector);
    assert(low & 0x01 != 0 <==> low % 2 == 1) by (bit_vector);
}

/// The headers of outgoing commands: the legacy one is the sequence number, a
/// zero and the id in one byte; the extended one has a one before the id, and
/// the id in two bytes. Only an id below 256 fits the first.
pub proof fn headers_hold_their_fields(sequence: u8, frame_id: FrameId)
    ensures
        ({
            let legacy = header(sequence, frame_id, HeaderFormat::Legacy);
            let extended = header(sequence, frame_id, HeaderFormat::Extended);
            &&& expressible(frame_id, HeaderFormat::Legacy) <==> frame_id.0 <= 255
            &&& expressible(frame_id, HeaderFormat::Extended)
            &&& legacy.len() == 3
            &&& legacy[0] == sequence
            &&& legacy[1] == 0
            &&& frame_id.0 <= 255 ==> legacy[2] == frame_id.0
            &&& extended.len() == 5
            &&& extended[0] == sequence
            &&& extended[1] == 0
            &&& extended[2] == 1
            &&& word(extended, 3) == frame_id.0
            &&& HeaderFormat::Legacy.width() == 3
            &&& HeaderFormat::Extended.width() == 5
        }),
{
    numbers_go_out_little_endian(frame_id.0, 0, 0);
}

/// A received frame put together from its fields parses to those fields, the
/// parameters untouched, in both formats.
pub proof fn composed_frames_parse(
    sequence: u8,
    low: u8,
    high: u8,
    id_low: u8,
    id_high: u8,
    parameters: Seq<u8>,
)
    ensures
        ({
            let bytes = seq![sequence, low, id_low] + parameters;
            let frame = parts(bytes, HeaderFormat::Legacy);
            &&& frame.sequence == sequence
            &&& frame.control == FrameControl::of_low_byte(low)
            &&& frame.frame_id.0 == id_low
            &&& frame.parameters == parameters
            &&& parse_failure(bytes, HeaderFormat::Legacy) == if parameters.len() > 215 {
                Some(
                    EzspError::FrameTooLong {
                        length: (parameters.len() + 3) as usize,
                        limit: 218,
                    },
                )
            } else {
                None
            }
        }),
        ({
            let bytes = seq![sequence, low, high, id_low, id_high] + parameters;
            let frame = parts(bytes, HeaderFormat::Extended);
            &&& frame.sequence == sequence
            &&& frame.control == FrameControl::of_low_byte(low)
            &&& frame.frame_id.0 == id_low + 256 * id_high
            &&& frame.parameters == parameters
            &&& if parameters.len() > 213 {
                parse_failure(bytes, HeaderFormat::Extended) == Some(
                    EzspError::FrameTooLong {
                        length: (parameters.len() + 5) as usize,
                        limit: 218,
                    },
                )
            } else if high % 4 != 1 {
                parse_failure(bytes, HeaderFormat::Extended) matches Some(error)
                    && error is MalformedHeader
            } else {
                parse_failure(bytes, HeaderFormat::Extended) is None
            }
        }),
{
    let legacy = seq![sequence, low, id_low] + parameters;
    assert(legacy.skip(3) =~= parameters);
    let extended = seq![sequence, low, high, id_low, id_high] + parameters;
    assert(extended.skip(5) =~= parameters);
    assert(high & 0x03 == high % 4) by (bit_vector);
}

/// Bytes too few for a header are refused, saying how many it takes and how
/// many there were.
pub proof fn short_frames_are_refused(bytes: Seq<u8>)
    ensures
        bytes.len() < 3 ==> parse_failure(bytes, HeaderFormat::Legacy) == Some(
            EzspError::TruncatedFrame { needed: 3, available: bytes.len() as usize },
        ),
        bytes.len() < 5 ==> parse_failure(bytes, HeaderFormat::Extended) == Some(
            EzspError::TruncatedFrame { needed: 5, available: bytes.len() as usize },
        ),
{
}

/// Four frames are secret, by their numbers, and no others.
pub proof fn four_frames_are_secret(frame_id: FrameId)
    ensures
        frame_id.is_secret() <==> frame_id.0 == 0x0068 || frame_id.0 == 0x0111 || frame_id.0
            == 0x0114 || frame_id.0 == 0x0116,
{
}

/// The models of a frame and of what it turned out to be keep every field.
pub proof fn frames_and_classifications_are_modelled(frame: Frame<'_>, classified: Classified<'_>)
    ensures
        frame@.sequence == frame.sequence,
        frame@.control == frame.control,
        frame@.frame_id == frame.frame_id,
        frame@.parameters == frame.parameters@,
        match classified {
            Classified::Response { parameters } => classified@ == (ClassifiedModel::Response {
                parameters: parameters@,
            }),
            Classified::Callback { frame_id, parameters } => classified@
                == (ClassifiedModel::Callback { frame_id, parameters: parameters@ }),
            Classified::Stale { frame_id, sequence } => classified@ == (ClassifiedModel::Stale {
                frame_id,
                sequence,
            }),
        },
{
}

/// What a frame turns out to be, and what that changes: a callback is handed on
/// and changes nothing; a response with the pending sequence number and id is
/// handed on and ends the wait; anything else is stale and counted, as far as
/// the counter goes.
pub proof fn frames_are_classified(
    correlator: CorrelatorModel,
    sequence: u8,
    control: FrameControl,
    frame_id: FrameId,
    parameters: Seq<u8>,
)
    ensures
        ({
            let frame = FrameParts { sequence, control, frame_id, parameters };
            let found = correlator.classification(frame);
            let after = correlator.after_frame(frame);
            let wanted = control.direction == Direction::Response && (
            correlator.pending matches Some(pending) && pending.sequence == sequence
                && pending.frame_id == frame_id);
            if control.is_callback {
                &&& found == (ClassifiedModel::Callback { frame_id, parameters })
                &&& after == correlator
            } else if wanted {
                &&& found == (ClassifiedModel::Response { parameters })
                &&& after.pending is None
                &&& after.next_sequence == correlator.next_sequence
                &&& after.stale_frames == correlator.stale_frames
            } else {
                &&& found == (ClassifiedModel::Stale { frame_id, sequence })
                &&& after.pending == correlator.pending
                &&& after.next_sequence == correlator.next_sequence
                &&& after.stale_frames == if correlator.stale_frames == u64::MAX {
                    u64::MAX as int
                } else {
                    correlator.stale_frames + 1
                }
            }
        }),
{
}

/// What the host does to a correlator: a command takes the next sequence
/// number, which moves on by one around 256; giving up forgets the command and
/// nothing else; a reset starts the numbers over as well.
pub proof fn commands_take_sequence_numbers(correlator: CorrelatorModel, frame_id: FrameId)
    ensures
        ({
            let begun = correlator.after_begin(frame_id);
            let given_up = correlator.abandoned();
            let reset = correlator.after_reset();
            &&& begun.pending == Some(Pending { sequence: correlator.next_sequence, frame_id })
            &&& begun.next_sequence == if correlator.next_sequence == 255 {
                0
            } else {
                correlator.next_sequence + 1
            }
            &&& begun.stale_frames == correlator.stale_frames
            &&& given_up.pending is None
            &&& given_up.next_sequence == correlator.next_sequence
            &&& given_up.stale_frames == correlator.stale_frames
            &&& reset.pending is None
            &&& reset.next_sequence == 0
            &&& reset.stale_frames == correlator.stale_frames
            &&& CorrelatorModel::fresh().pending is None
            &&& CorrelatorModel::fresh().next_sequence == 0
            &&& CorrelatorModel::fresh().stale_frames == 0
        }),
{
}

} // verus!
