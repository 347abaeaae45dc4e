//! Matching responses to the commands that asked for them.
//!
//! # Why it is not obvious
//!
//! The naive model is "send a command, the next frame is its answer". That is
//! wrong on an Ember NCP, because callbacks arrive whenever the stack has
//! something to say — a device joined, a message was delivered, a frame came
//! in — and they interleave freely with responses:
//!
//! ```text
//! send command A
//!   callback X arrives      <- not A's answer
//!   response A arrives      <- A's answer
//!   callback Y arrives      <- not anything's answer
//! ```
//!
//! A correlator that takes the next frame hands the caller a decoded structure
//! built from an unrelated frame. That does not fail: it succeeds, with values
//! that look plausible.
//!
//! # The guard
//!
//! A frame is this command's answer only when **all three** hold:
//!
//! 1. it is not flagged as an asynchronous callback,
//! 2. its sequence number matches the pending command's, and
//! 3. its frame id matches the pending command's.
//!
//! All three, because each alone is insufficient. The callback flag can be
//! absent from a frame that is still not ours; sequence numbers are one byte
//! and wrap every 256 commands; and a frame id alone says nothing about which
//! of two identical commands answered.

use vstd::prelude::*;

use crate::ezsp::error::EzspError;
use crate::ezsp::frame::{Direction, Frame, FrameId, FrameParts};

verus! {

/// A command awaiting its answer.
#[derive(Debug, Clone, Copy, PartialEq, Eq, Structural)]
pub struct Pending {
    /// The sequence number sent.
    pub sequence: u8,
    /// The command sent.
    pub frame_id: FrameId,
}

/// What an inbound frame turned out to be.
#[derive(Debug, Clone, PartialEq, Eq)]
pub enum Classified<'a> {
    /// The answer to the pending command.
    Response {
        /// The parameter bytes, still encoded.
        parameters: &'a [u8],
    },
    /// An asynchronous callback, for the caller to dispatch.
    Callback {
        /// Which callback.
        frame_id: FrameId,
        /// The parameter bytes, still encoded.
        parameters: &'a [u8],
    },
    /// A frame that belongs to nothing currently outstanding.
    ///
    /// Not an error. A response to a command that already timed out arrives
    /// here, and dropping it is correct -- but it is reported so a caller can
    /// count them, because a rising count means the timeout is too short.
    Stale {
        /// Which frame.
        frame_id: FrameId,
        /// Its sequence number.
        sequence: u8,
    },
}

/// What an inbound frame turned out to be, over byte sequences.
pub enum ClassifiedModel {
    /// The answer to the pending command.
    Response { parameters: Seq<u8> },
    /// An asynchronous callback.
    Callback { frame_id: FrameId, parameters: Seq<u8> },
    /// A frame that belongs to nothing outstanding.
    Stale { frame_id: FrameId, sequence: u8 },
}

impl<'a> View for Classified<'a> {
    type V = ClassifiedModel;

    open spec fn view(&self) -> ClassifiedModel {
        match *self {
            Classified::Response { parameters } => ClassifiedModel::Response {
                parameters: parameters@,
            },
            Classified::Callback { frame_id, parameters } => ClassifiedModel::Callback {
                frame_id,
                parameters: parameters@,
            },
            Classified::Stale { frame_id, sequence } => ClassifiedModel::Stale {
                frame_id,
                sequence,
            },
        }
    }
}

/// What a correlator remembers.
pub struct CorrelatorModel {
    /// The command that awaits its answer.
    pub pending: Option<Pending>,
    /// The sequence number the next command carries.
    pub next_sequence: u8,
    /// How many frames matched nothing.
    pub stale_frames: u64,
}

impl CorrelatorModel {
    /// Nothing outstanding, nothing counted.
    pub open spec fn fresh() -> CorrelatorModel {
        CorrelatorModel { pending: None, next_sequence: 0, stale_frames: 0 }
    }

    /// The correlator after a command was registered.
    pub open spec fn after_begin(self, frame_id: FrameId) -> CorrelatorModel {
        CorrelatorModel {
            pending: Some(Pending { sequence: self.next_sequence, frame_id }),
            next_sequence: ((self.next_sequence + 1) % 256) as u8,
            ..self
        }
    }

    /// Whether a frame is the pending command's answer: a response, not a
    /// callback, with the sequence number and the id that were sent.
    pub open spec fn is_answer(self, frame: FrameParts) -> bool {
        &&& !frame.control.is_callback
        &&& frame.control.direction == Direction::Response
        &&& self.pending == Some(Pending { sequence: frame.sequence, frame_id: frame.frame_id })
    }

    /// What a frame is.
    pub open spec fn classification(self, frame: FrameParts) -> ClassifiedModel {
        if frame.control.is_callback {
            ClassifiedModel::Callback { frame_id: frame.frame_id, parameters: frame.parameters }
        } else if self.is_answer(frame) {
            ClassifiedModel::Response { parameters: frame.parameters }
        } else {
            ClassifiedModel::Stale { frame_id: frame.frame_id, sequence: frame.sequence }
        }
    }

    /// The correlator after a frame was classified: an answer ends the wait, a
    /// stray frame is counted, a callback changes nothing.
    pub open spec fn after_frame(self, frame: FrameParts) -> CorrelatorModel {
        if frame.control.is_callback {
            self
        } else if self.is_answer(frame) {
            CorrelatorModel { pending: None, ..self }
        } else {
            CorrelatorModel {
                stale_frames: if self.stale_frames < u64::MAX {
                    (self.stale_frames + 1) as u64
                } else {
                    self.stale_frames
                },
                ..self
            }
        }
    }

    /// The correlator after the outstanding command was given up.
    pub open spec fn abandoned(self) -> CorrelatorModel {
        CorrelatorModel { pending: None, ..self }
    }

    /// The correlator after the NCP reset.
    pub open spec fn after_reset(self) -> CorrelatorModel {
        CorrelatorModel { pending: None, next_sequence: 0, ..self }
    }
}

/// Tracks one outstanding command and classifies what arrives.
///
/// One at a time, deliberately. EZSP over ASH has a small window and the NCP
/// answers in order, so a pipeline would add a queue whose only purpose is to
/// make correlation harder to reason about. The caller serialises commands; the
/// correlator's job is to be certain about which frame is the answer.
#[derive(Debug)]
pub struct Correlator {
    pending: Option<Pending>,
    next_sequence: u8,
    /// Frames that matched nothing, counted rather than dropped silently.
    stale_frames: u64,
}

impl View for Correlator {
    type V = CorrelatorModel;

    closed spec fn view(&self) -> CorrelatorModel {
        CorrelatorModel {
            pending: self.pending,
            next_sequence: self.next_sequence,
            stale_frames: self.stale_frames,
        }
    }
}

impl Default for Correlator {
    fn default() -> (res: Self)
        ensures
            res@ == CorrelatorModel::fresh(),
    {
        Correlator::new()
    }
}

impl Correlator {
    /// A correlator with nothing outstanding.
    pub fn new() -> (res: Self)
        ensures
            res@ == CorrelatorModel::fresh(),
    {
        Correlator { pending: None, next_sequence: 0, stale_frames: 0 }
    }

    /// The sequence number the next command should carry.
    ///
    /// Wraps at 256, which is why the sequence alone cannot identify a
    /// response: after 256 commands the numbers repeat.
    pub fn peek_sequence(&self) -> (res: u8)
        ensures
            res == self@.next_sequence,
    {
        self.next_sequence
    }

    /// Whether a command is outstanding.
    pub fn is_busy(&self) -> (res: bool)
        ensures
            res == (self@.pending is Some),
    {
        self.pending.is_some()
    }

    /// What is outstanding, if anything.
    pub fn pending(&self) -> (res: Option<Pending>)
        ensures
            res == self@.pending,
    {
        self.pending
    }

    /// How many frames matched nothing outstanding.
    pub fn stale_frames(&self) -> (res: u64)
        ensures
            res == self@.stale_frames,
    {
        self.stale_frames
    }

    /// The command currently awaiting a response, if any.
    ///
    /// Exposed so a caller can decide how to log an inbound frame *before*
    /// parsing it -- which matters for responses carrying key material, where
    /// the unparsed bytes are the secret.
    #[must_use]
    pub fn pending_frame_id(&self) -> (res: Option<FrameId>)
        ensures
            res == match self@.pending {
                Some(pending) => Some(pending.frame_id),
                None => None,
            },
    {
        match self.pending {
            Some(pending) => Some(pending.frame_id),
            None => None,
        }
    }

    /// Registers a command as outstanding and returns its sequence number.
    ///
    /// # Errors
    ///
    /// A second concurrent command is refused with
    /// [`EzspError::SequenceMismatch`] naming the sequence still outstanding,
    /// because issuing one would make two commands indistinguishable if the
    /// NCP answered out of order.
    pub fn begin(&mut self, frame_id: FrameId) -> (res: Result<u8, EzspError>)
        ensures
            match old(self)@.pending {
                Some(pending) => {
                    &&& res == Err::<u8, EzspError>(
                        EzspError::SequenceMismatch { sequence: pending.sequence },
                    )
                    &&& final(self)@ == old(self)@
                },
                None => {
                    &&& res == Ok::<u8, EzspError>(old(self)@.next_sequence)
                    &&& final(self)@ == old(self)@.after_begin(frame_id)
                },
            },
    {
        if let Some(pending) = self.pending {
            return Err(EzspError::SequenceMismatch { sequence: pending.sequence });
        }
        let sequence: u8 = self.next_sequence;
        self.next_sequence = self.next_sequence.wrapping_add(1);
        self.pending = Some(Pending { sequence, frame_id });
        Ok(sequence)
    }

    /// Classifies a received frame.
    ///
    /// Clears the pending command when the frame is its answer, so a duplicate
    /// arriving afterwards is classified stale rather than answering the *next*
    /// command to be issued.
    pub fn classify<'a>(&mut self, frame: &Frame<'a>) -> (res: Classified<'a>)
        ensures
            res@ == old(self)@.classification(frame@),
            final(self)@ == old(self)@.after_frame(frame@),
    {
        // A callback is never a response, whatever else matches. Checked first
        // because a callback can legitimately carry a sequence number equal to
        // a pending command's -- the NCP numbers them from its own counter.
        if frame.control.is_callback {
            return Classified::Callback {
                frame_id: frame.frame_id,
                parameters: frame.parameters,
            };
        }
        // A command echoed back is not an answer. An adapter or a loopback can
        // produce one, and accepting it resolves the caller's request with its
        // own arguments.

        if frame.control.direction == Direction::Response {
            if let Some(pending) = self.pending {
                if pending.sequence == frame.sequence && pending.frame_id == frame.frame_id {
                    self.pending = None;
                    return Classified::Response { parameters: frame.parameters };
                }
            }
        }
        self.stale_frames = self.stale_frames.saturating_add(1);
        Classified::Stale { frame_id: frame.frame_id, sequence: frame.sequence }
    }

    /// Abandons the outstanding command because it timed out.
    ///
    /// # Errors
    ///
    /// [`EzspError::Timeout`] naming the command, so the caller reports which
    /// one rather than "a command".
    pub fn time_out(&mut self) -> (res: Result<(), EzspError>)
        ensures
            final(self)@ == old(self)@.abandoned(),
            res == match old(self)@.pending {
                Some(pending) => Err::<(), EzspError>(
                    EzspError::Timeout { frame_id: pending.frame_id },
                ),
                None => Ok(()),
            },
    {
        let lost = self.pending;
        self.pending = None;
        match lost {
            Some(pending) => Err(EzspError::Timeout { frame_id: pending.frame_id }),
            None => Ok(()),
        }
    }

    /// Abandons everything because the NCP reset.
    ///
    /// Distinct from a timeout: the sequence counter goes back to zero, because
    /// the NCP's did. Keeping the old counter would make the next command carry
    /// a number the NCP does not expect.
    ///
    /// # Errors
    ///
    /// [`EzspError::NcpReset`] when a command was in flight, so the caller
    /// learns it was lost rather than waiting out its timeout.
    pub fn on_ncp_reset(&mut self) -> (res: Result<(), EzspError>)
        ensures
            final(self)@ == old(self)@.after_reset(),
            res == match old(self)@.pending {
                Some(pending) => Err::<(), EzspError>(
                    EzspError::NcpReset { frame_id: pending.frame_id },
                ),
                None => Ok(()),
            },
    {
        self.next_sequence = 0;
        let lost = self.pending;
        self.pending = None;
        match lost {
            Some(pending) => Err(EzspError::NcpReset { frame_id: pending.frame_id }),
            None => Ok(()),
        }
    }
}

/// A frame answers the pending command exactly when it is no callback, comes
/// from the NCP, and matches both the sequence number and the id.
pub proof fn an_answer_passes_every_guard(correlator: CorrelatorModel, frame: FrameParts)
    ensures
        correlator.classification(frame) is Response <==> {
            &&& !frame.control.is_callback
            &&& frame.control.direction == Direction::Response
            &&& correlator.pending matches Some(pending) && pending.sequence == frame.sequence
                && pending.frame_id == frame.frame_id
        },
{
}

/// A callback is handed on whole, whatever numbers it carries, and the pending
/// command goes on waiting.
pub proof fn callbacks_never_answer(correlator: CorrelatorModel, frame: FrameParts)
    requires
        frame.control.is_callback,
    ensures
        correlator.classification(frame) == (ClassifiedModel::Callback {
            frame_id: frame.frame_id,
            parameters: frame.parameters,
        }),
        correlator.after_frame(frame) == correlator,
{
}

/// An answer that arrives again answers nothing, not even the same command
/// sent once more.
pub proof fn a_duplicate_answer_is_stale(correlator: CorrelatorModel, frame: FrameParts)
    requires
        correlator.is_answer(frame),
        correlator.pending matches Some(pending) && correlator.next_sequence == (pending.sequence
            + 1) % 256,
    ensures
        correlator.after_frame(frame).classification(frame) is Stale,
        correlator.after_frame(frame).after_begin(frame.frame_id).classification(frame) is Stale,
{
}

/// The answer to a command that was given up does not answer the next one.
pub proof fn a_late_answer_is_stale(
    correlator: CorrelatorModel,
    first: FrameId,
    second: FrameId,
    frame: FrameParts,
)
    requires
        correlator.after_begin(first).is_answer(frame),
    ensures
        correlator.after_begin(first).abandoned().after_begin(second).classification(frame)
            is Stale,
{
}

/// The correlator after `count` commands were registered and each answered or
/// given up.
pub open spec fn after_commands(
    correlator: CorrelatorModel,
    frame_id: FrameId,
    count: nat,
) -> CorrelatorModel
    decreases count,
{
    if count == 0 {
        correlator
    } else {
        after_commands(correlator, frame_id, (count - 1) as nat).after_begin(frame_id).abandoned()
    }
}

/// Sequence numbers count up and repeat after 256 commands.
pub proof fn sequence_numbers_wrap(
    correlator: CorrelatorModel,
    frame_id: FrameId,
    count: nat,
)
    ensures
        after_commands(correlator, frame_id, count).next_sequence == (correlator.next_sequence
            + count) % 256,
    decreases count,
{
    if count > 0 {
        sequence_numbers_wrap(correlator, frame_id, (count - 1) as nat);
    }
}

} // verus!
