//! What can go wrong, named precisely.
//!
//! Every variant here answers a different question for whoever is debugging.
//! "The frame was bad" is not actionable; "a length byte claimed 64 bytes and
//! the frame had 2" tells you whether to look at the device, the cable, or the
//! codec.
//!
//! Deliberately no `Other(String)` variant. One would absorb every case nobody
//! wanted to think about, and the cases nobody wanted to think about are the
//! ones that turn up on unfamiliar hardware.

use vstd::prelude::*;

use crate::ash::error::AshError;
use crate::ezsp::frame::FrameId;
use crate::ezsp::version::ProtocolVersion;
use crate::text::{decimal, hex, push_decimal, push_hex};
use crate::types::status::SlStatus;

verus! {

/// A failure in the EZSP layer.
#[derive(Debug, Clone, PartialEq, Eq)]
#[non_exhaustive]
#[allow(inconsistent_fields)]
pub enum EzspError {
    /// A frame ended before a field it promised.
    TruncatedFrame {
        /// How many bytes the decoder asked for.
        needed: usize,
        /// How many were left.
        available: usize,
    },
    /// A frame was longer than EZSP permits.
    FrameTooLong {
        /// The length seen.
        length: usize,
        /// The protocol limit.
        limit: usize,
    },
    /// A payload could not be described by its length prefix.
    PayloadTooLong {
        /// The payload length.
        length: usize,
        /// The largest describable length.
        limit: usize,
    },
    /// A frame's header did not parse.
    MalformedHeader {
        /// What specifically was wrong.
        reason: &'static str,
    },
    /// Bytes were left over after decoding.
    ///
    /// Worth an error rather than a shrug: it usually means a field width was
    /// wrong for this protocol version, which is the failure mode this crate
    /// was built to catch. Everything decoded so far will have looked
    /// plausible.
    TrailingBytes {
        /// The command whose response it was.
        frame_id: FrameId,
        /// How many bytes were not consumed.
        extra: usize,
    },
    /// The NCP negotiated a version this crate cannot speak.
    UnsupportedVersion {
        /// What the NCP answered with.
        negotiated: ProtocolVersion,
    },
    /// A command was used that the negotiated version does not have.
    UnsupportedCommand {
        /// The command.
        frame_id: FrameId,
        /// The version in use.
        version: ProtocolVersion,
    },
    /// A response arrived whose frame id is not the one that was asked for.
    ///
    /// Distinct from a sequence mismatch: this is the right conversation with
    /// the wrong content.
    UnexpectedResponse {
        /// The pending command.
        expected: FrameId,
        /// What arrived.
        actual: FrameId,
    },
    /// A response arrived carrying a sequence number nothing is waiting on.
    SequenceMismatch {
        /// The sequence that arrived.
        sequence: u8,
    },
    /// An enum field held a value this build does not know.
    ///
    /// Carries the value so an unfamiliar firmware can be reported rather than
    /// guessed at.
    UnknownEnum {
        /// Which enum.
        name: &'static str,
        /// The value seen.
        value: u32,
    },
    /// The NCP answered with a failure status.
    ///
    /// Not an error in this crate: the exchange worked and the NCP said no.
    Status {
        /// What it returned.
        status: SlStatus,
    },
    /// No response arrived in time.
    Timeout {
        /// The command that was waiting.
        frame_id: FrameId,
    },
    /// The NCP reset while a command was in flight.
    ///
    /// Separate from a timeout because the recovery differs: a reset means
    /// every pending command is lost and the connection must be re-established
    /// from the handshake, not merely retried.
    NcpReset {
        /// The command that was lost.
        frame_id: FrameId,
    },
    /// The connection is not up.
    NotConnected,
    /// The transport failed.
    Transport {
        /// What the transport reported.
        reason: String,
    },
    /// A failure in the ASH layer underneath.
    Ash(AshError),
}

impl From<AshError> for EzspError {
    fn from(error: AshError) -> (res: Self) {
        EzspError::Ash(error)
    }
}

impl vstd::std_specs::convert::FromSpecImpl<AshError> for EzspError {
    open spec fn obeys_from_spec() -> bool {
        true
    }

    open spec fn from_spec(error: AshError) -> Self {
        EzspError::Ash(error)
    }
}

impl EzspError {
    /// Whether trying again could help: the failure is of the moment, not of
    /// the bytes.
    pub open spec fn transient(self) -> bool {
        self is Timeout || self is NcpReset || self is Transport || self is Ash
    }

    /// Whether retrying the same command could plausibly succeed.
    ///
    /// A malformed frame is not transient -- the same bytes will fail the same
    /// way -- but a timeout or a dropped ASH frame is.
    pub fn is_transient(&self) -> (res: bool)
        ensures
            res == self.transient(),
    {
        matches!(
            self,
            EzspError::Timeout { .. } | EzspError::NcpReset { .. } | EzspError::Transport { .. }
                | EzspError::Ash(_)
        )
    }

    /// The sentence that reports this error.
    pub open spec fn message(self) -> Seq<char> {
        match self {
            EzspError::TruncatedFrame { needed, available } => "frame ended early: needed "@
                + decimal(needed as nat) + " more bytes, "@ + decimal(available as nat)
                + " available"@,
            EzspError::FrameTooLong { length, limit } => "frame is "@ + decimal(length as nat)
                + " bytes; EZSP permits at most "@ + decimal(limit as nat),
            EzspError::PayloadTooLong { length, limit } => "payload is "@ + decimal(length as nat)
                + " bytes; a length prefix holds at most "@ + decimal(limit as nat),
            EzspError::MalformedHeader { reason } => "malformed frame header: "@ + reason@,
            EzspError::TrailingBytes { frame_id, extra } => decimal(extra as nat)
                + " bytes left after decoding the response to "@ + frame_id.text(),
            EzspError::UnsupportedVersion { negotiated } => "the NCP speaks EZSP "@
                + negotiated.text() + ", which this build does not support"@,
            EzspError::UnsupportedCommand { frame_id, version } => frame_id.text()
                + " is not available in EZSP "@ + version.text(),
            EzspError::UnexpectedResponse { expected, actual } => "expected a response to "@
                + expected.text() + ", got "@ + actual.text(),
            EzspError::SequenceMismatch { sequence } => "no command is waiting on sequence "@
                + decimal(sequence as nat),
            EzspError::UnknownEnum { name, value } => name@ + " has no variant for "@ + hex(
                value as nat,
                2,
            ),
            EzspError::Status { status } => "the NCP returned "@ + status.text(),
            EzspError::Timeout { frame_id } => frame_id.text() + " timed out"@,
            EzspError::NcpReset { frame_id } => "the NCP reset while "@ + frame_id.text()
                + " was pending"@,
            EzspError::NotConnected => "not connected to an NCP"@,
            EzspError::Transport { reason } => "transport failure: "@ + reason@,
            EzspError::Ash(error) => "ASH: "@ + error.message(),
        }
    }

    /// This error as one sentence.
    pub fn to_string(&self) -> (res: String)
        ensures
            res@ == self.message(),
    {
        let mut out = String::new();
        match self {
            EzspError::TruncatedFrame { needed, available } => {
                out.append("frame ended early: needed ");
                push_decimal(&mut out, *needed as u64);
                out.append(" more bytes, ");
                push_decimal(&mut out, *available as u64);
                out.append(" available");
            },
            EzspError::FrameTooLong { length, limit } => {
                out.append("frame is ");
                push_decimal(&mut out, *length as u64);
                out.append(" bytes; EZSP permits at most ");
                push_decimal(&mut out, *limit as u64);
            },
            EzspError::PayloadTooLong { length, limit } => {
                out.append("payload is ");
                push_decimal(&mut out, *length as u64);
                out.append(" bytes; a length prefix holds at most ");
                push_decimal(&mut out, *limit as u64);
            },
            EzspError::MalformedHeader { reason } => {
                out.append("malformed frame header: ");
                out.append(reason);
            },
            EzspError::TrailingBytes { frame_id, extra } => {
                push_decimal(&mut out, *extra as u64);
                out.append(" bytes left after decoding the response to ");
                out.append(frame_id.to_string().as_str());
            },
            EzspError::UnsupportedVersion { negotiated } => {
                out.append("the NCP speaks EZSP ");
                out.append(negotiated.to_string().as_str());
                out.append(", which this build does not support");
            },
            EzspError::UnsupportedCommand { frame_id, version } => {
                out.append(frame_id.to_string().as_str());
                out.append(" is not available in EZSP ");
                out.append(version.to_string().as_str());
            },
            EzspError::UnexpectedResponse { expected, actual } => {
                out.append("expected a response to ");
                out.append(expected.to_string().as_str());
                out.append(", got ");
                out.append(actual.to_string().as_str());
            },
            EzspError::SequenceMismatch { sequence } => {
                out.append("no command is waiting on sequence ");
                push_decimal(&mut out, *sequence as u64);
            },
            EzspError::UnknownEnum { name, value } => {
                out.append(name);
                out.append(" has no variant for ");
                push_hex(&mut out, *value as u64, 2);
            },
            EzspError::Status { status } => {
                out.append("the NCP returned ");
                out.append(status.to_string().as_str());
            },
            EzspError::Timeout { frame_id } => {
                out.append(frame_id.to_string().as_str());
                out.append(" timed out");
            },
            EzspError::NcpReset { frame_id } => {
                out.append("the NCP reset while ");
                out.append(frame_id.to_string().as_str());
                out.append(" was pending");
            },
            EzspError::NotConnected => {
                out.append("not connected to an NCP");
            },
            EzspError::Transport { reason } => {
                out.append("transport failure: ");
                out.append(reason.as_str());
            },
            EzspError::Ash(error) => {
                out.append("ASH: ");
                out.append(error.to_string().as_str());
            },
        }
        proof {
            assert(out@ =~= self.message());
        }
        out
    }
}

} // verus!
