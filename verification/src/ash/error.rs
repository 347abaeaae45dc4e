//! ASH-layer failures.

use vstd::prelude::*;

use crate::text::{decimal, hex, push_decimal, push_hex};

verus! {

/// What can go wrong framing or unframing ASH.
#[derive(Debug, Clone, Copy, PartialEq, Eq, Structural)]
#[non_exhaustive]
pub enum AshError {
    /// The frame's CRC did not match its contents.
    ///
    /// Almost always line noise or a baud-rate mismatch rather than a protocol
    /// error, which is why it is distinguished from a malformed frame: the
    /// recovery is to NAK and let the NCP resend, not to give up.
    BadCrc {
        /// What the receiver computed.
        computed: u16,
        /// What the frame claimed.
        carried: u16,
    },
    /// The frame was shorter than its type permits.
    TooShort {
        /// The length seen.
        length: usize,
        /// The minimum for this frame type.
        minimum: usize,
    },
    /// The frame was longer than ASH permits.
    TooLong {
        /// The length seen.
        length: usize,
        /// The protocol maximum.
        maximum: usize,
    },
    /// The control byte matched no frame type, or matched one whose fixed
    /// length disagrees with the frame.
    InvalidControl {
        /// The control byte.
        control: u8,
        /// The frame length it arrived with.
        length: usize,
    },
    /// The NCP sent `CANCEL`, abandoning the frame in progress.
    ///
    /// Normal during startup: the NCP cancels partial output when it resets.
    Cancelled,
    /// The NCP sent `SUBSTITUTE`, marking the frame as corrupt in transit.
    Substituted,
    /// The NCP reported an error condition and needs a reset.
    NcpError {
        /// ASH protocol version the NCP reported.
        version: u8,
        /// The error code.
        code: u8,
    },
    /// The NCP reset. Every pending command is lost.
    NcpReset {
        /// ASH protocol version the NCP reported.
        version: u8,
        /// The reset code.
        code: u8,
    },
    /// The reset handshake did not complete.
    ResetFailed,
    /// A data frame arrived with a frame number that is not the next expected:
    /// a frame was lost on the way.
    OutOfSequence {
        /// The number that arrived.
        received: u8,
        /// The number expected.
        expected: u8,
    },
    /// The host is not connected to an NCP.
    NotConnected,
    /// No frame arrived within the timeout.
    Timeout,
    /// The send window is full; wait for an acknowledgement.
    ///
    /// The window is bounded at seven, one short of the sequence space,
    /// because with all eight outstanding an acknowledgement is ambiguous: a
    /// three-bit `ack_num` of 0 would mean both "none acknowledged" and "all
    /// eight acknowledged", and there is no way to tell which.
    WindowFull {
        /// How many frames are awaiting acknowledgement.
        outstanding: usize,
        /// The window size.
        limit: usize,
    },
}

impl AshError {
    /// Whether asking for a resend can help: only damage in transit can be
    /// mended that way.
    pub open spec fn nak_mends(self) -> bool {
        self is BadCrc || self is Substituted
    }

    /// Whether the right response is to ask the NCP to resend.
    ///
    /// A bad CRC or a corrupted frame is recoverable by NAK. A protocol
    /// violation is not, and `NAKing` one would loop.
    pub fn is_recoverable_by_nak(&self) -> (res: bool)
        ensures
            res == self.nak_mends(),
    {
        matches!(self, AshError::BadCrc { .. } | AshError::Substituted)
    }

    /// The sentence that reports this error.
    pub open spec fn message(self) -> Seq<char> {
        match self {
            AshError::BadCrc { computed, carried } => "ASH CRC mismatch: computed "@ + hex(
                computed as nat,
                4,
            ) + ", frame carried "@ + hex(carried as nat, 4),
            AshError::TooShort { length, minimum } => "ASH frame is "@ + decimal(length as nat)
                + " bytes, shorter than the minimum "@ + decimal(minimum as nat),
            AshError::TooLong { length, maximum } => "ASH frame is "@ + decimal(length as nat)
                + " bytes, longer than the maximum "@ + decimal(maximum as nat),
            AshError::InvalidControl { control, length } => "ASH control byte "@ + hex(
                control as nat,
                2,
            ) + " is not a valid frame of "@ + decimal(length as nat) + " bytes"@,
            AshError::Cancelled => "the NCP cancelled the frame in progress"@,
            AshError::Substituted => "the NCP reported a corrupted frame"@,
            AshError::NcpError { version, code } => "the NCP reported error code "@ + hex(
                code as nat,
                2,
            ) + " (ASH version "@ + decimal(version as nat) + ")"@,
            AshError::NcpReset { version, code } => "the NCP reset with code "@ + hex(
                code as nat,
                2,
            ) + " (ASH version "@ + decimal(version as nat) + ")"@,
            AshError::ResetFailed =>
                "the NCP did not answer a reset within the allowed attempts"@,
            AshError::OutOfSequence { received, expected } => "ASH frame number "@ + decimal(
                received as nat,
            ) + " arrived while expecting "@ + decimal(expected as nat),
            AshError::NotConnected => "ASH is not connected"@,
            AshError::Timeout => "ASH timed out waiting for the NCP"@,
            AshError::WindowFull { outstanding, limit } => "the ASH send window is full ("@
                + decimal(outstanding as nat) + " of "@ + decimal(limit as nat)
                + " frames unacknowledged)"@,
        }
    }

    /// This error as one sentence.
    pub fn to_string(&self) -> (res: String)
        ensures
            res@ == self.message(),
    {
        let mut out = String::new();
        match *self {
            AshError::BadCrc { computed, carried } => {
                out.append("ASH CRC mismatch: computed ");
                push_hex(&mut out, computed as u64, 4);
                out.append(", frame carried ");
                push_hex(&mut out, carried as u64, 4);
            },
            AshError::TooShort { length, minimum } => {
                out.append("ASH frame is ");
                push_decimal(&mut out, length as u64);
                out.append(" bytes, shorter than the minimum ");
                push_decimal(&mut out, minimum as u64);
            },
            AshError::TooLong { length, maximum } => {
                out.append("ASH frame is ");
                push_decimal(&mut out, length as u64);
                out.append(" bytes, longer than the maximum ");
                push_decimal(&mut out, maximum as u64);
            },
            AshError::InvalidControl { control, length } => {
                out.append("ASH control byte ");
                push_hex(&mut out, control as u64, 2);
                out.append(" is not a valid frame of ");
                push_decimal(&mut out, length as u64);
                out.append(" bytes");
            },
            AshError::Cancelled => {
                out.append("the NCP cancelled the frame in progress");
            },
            AshError::Substituted => {
                out.append("the NCP reported a corrupted frame");
            },
            AshError::NcpError { version, code } => {
                out.append("the NCP reported error code ");
                push_hex(&mut out, code as u64, 2);
                out.append(" (ASH version ");
                push_decimal(&mut out, version as u64);
                out.append(")");
            },
            AshError::NcpReset { version, code } => {
                out.append("the NCP reset with code ");
                push_hex(&mut out, code as u64, 2);
                out.append(" (ASH version ");
                push_decimal(&mut out, version as u64);
                out.append(")");
            },
            AshError::ResetFailed => {
                out.append("the NCP did not answer a reset within the allowed attempts");
            },
            AshError::OutOfSequence { received, expected } => {
                out.append("ASH frame number ");
                push_decimal(&mut out, received as u64);
                out.append(" arrived while expecting ");
                push_decimal(&mut out, expected as u64);
            },
            AshError::NotConnected => {
                out.append("ASH is not connected");
            },
            AshError::Timeout => {
                out.append("ASH timed out waiting for the NCP");
            },
            AshError::WindowFull { outstanding, limit } => {
                out.append("the ASH send window is full (");
                push_decimal(&mut out, outstanding as u64);
                out.append(" of ");
                push_decimal(&mut out, limit as u64);
                out.append(" frames unacknowledged)");
            },
        }
        proof {
            assert(out@ =~= self.message());
        }
        out
    }
}

} // verus!
