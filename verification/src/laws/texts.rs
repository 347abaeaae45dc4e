//! What messages and addresses say.

use vstd::prelude::*;

use crate::ash::error::AshError;
use crate::ezsp::error::EzspError;
use crate::ezsp::frame::FrameId;
use crate::ezsp::version::ProtocolVersion;
use crate::text::{decimal, digit_char, hex, hex_digits};
use crate::transport::error::TransportError;
use crate::types::network::{Eui64, NodeId};
use crate::types::status::SlStatus;

verus! {

/// The number that one digit stands for, letters in lower case.
pub open spec fn digit_value(digit: char) -> int {
    if '0' <= digit <= '9' {
        digit as int - '0' as int
    } else if 'a' <= digit <= 'f' {
        digit as int - 'a' as int + 10
    } else {
        -1
    }
}

/// The number that a text of digits stands for.
pub open spec fn numeral(text: Seq<char>, base: int) -> int
    decreases text.len(),
{
    if text.len() == 0 {
        0
    } else {
        base * numeral(text.drop_last(), base) + digit_value(text.last())
    }
}

/// Whether every character of a text is a digit of the base.
pub open spec fn is_numeral(text: Seq<char>, base: int) -> bool {
    forall|i: int| 0 <= i < text.len() ==> 0 <= digit_value(#[trigger] text[i]) < base
}

/// A digit's character stands for that digit.
proof fn digits_stand_for_themselves(digit: nat)
    requires
        digit < 16,
    ensures
        digit_value(digit_char(digit)) == digit,
{
}

/// A number in base ten reads as that number, in digits alone and without a
/// zero in front of another digit.
pub proof fn decimals_read_as_their_number(value: nat)
    ensures
        numeral(decimal(value), 10) == value,
        is_numeral(decimal(value), 10),
        decimal(value).len() >= 1,
        decimal(value).len() > 1 ==> decimal(value)[0] != '0',
    decreases value,
{
    let text = decimal(value);
    digits_stand_for_themselves(value % 10);
    if value < 10 {
        digits_stand_for_themselves(value);
        assert(text.drop_last() =~= Seq::<char>::empty());
        assert(numeral(text.drop_last(), 10) == 0);
    } else {
        let head = decimal(value / 10);
        decimals_read_as_their_number(value / 10);
        assert(text.drop_last() =~= head);
        assert(text[0] == head[0]);
        if head.len() == 1 {
            assert(value / 10 < 10) by {
                if value / 10 >= 10 {
                    decimals_read_as_their_number((value / 10) / 10);
                    assert(head == decimal((value / 10) / 10).push(digit_char((value / 10) % 10)));
                }
            }
            digits_stand_for_themselves(value / 10);
        }
    }
}

/// A number in hexadecimal reads as that number, in at least `width` digits,
/// with a zero in front only to make up that width.
pub proof fn hexadecimals_read_as_their_number(value: nat, width: nat)
    ensures
        numeral(hex_digits(value, width), 16) == value,
        is_numeral(hex_digits(value, width), 16),
        hex_digits(value, width).len() >= width,
        hex_digits(value, width).len() >= 1,
        hex_digits(value, width).len() > width && hex_digits(value, width).len() > 1 ==> hex_digits(
            value,
            width,
        )[0] != '0',
    decreases width, value,
{
    let text = hex_digits(value, width);
    digits_stand_for_themselves(value % 16);
    if value < 16 && width <= 1 {
        digits_stand_for_themselves(value);
        assert(text.drop_last() =~= Seq::<char>::empty());
        assert(numeral(text.drop_last(), 16) == 0);
    } else {
        let less: nat = if width == 0 { 0 } else { (width - 1) as nat };
        let head = hex_digits(value / 16, less);
        hexadecimals_read_as_their_number(value / 16, less);
        assert(text.drop_last() =~= head);
        assert(text[0] == head[0]);
        if head.len() == 1 && less == 0 {
            assert(head.drop_last() =~= Seq::<char>::empty());
            assert(numeral(head.drop_last(), 16) == 0);
            assert(numeral(head, 16) == digit_value(head[0]));
        }
    }
}

/// Hexadecimal numbers are marked by `0x` in front.
pub proof fn hexadecimals_are_marked(value: nat, width: nat)
    ensures
        hex(value, width).len() >= 2,
        hex(value, width)[0] == '0',
        hex(value, width)[1] == 'x',
        hex(value, width).skip(2) == hex_digits(value, width),
{
    reveal_strlit("0x");
    assert(hex(value, width).skip(2) =~= hex_digits(value, width));
}

/// Addresses are their number in hexadecimal, a version is a `v` and its
/// number.
pub proof fn addresses_and_versions_read_as_numbers(
    eui64: Eui64,
    node: NodeId,
    version: ProtocolVersion,
)
    ensures
        eui64.text() == hex(eui64.0 as nat, 16),
        node.text() == hex(node.0 as nat, 4),
        version.text() == "v"@ + decimal(version.0 as nat),
{
}

/// Thirteen frame ids have a name; an id is reported by its name, where it has
/// one, and always by its number.
pub proof fn frame_ids_are_reported_by_number(frame_id: FrameId)
    ensures
        frame_id.known_name() == match frame_id.0 {
            0x0000 => Some("version"@),
            0x0002 => Some("addEndpoint"@),
            0x0017 => Some("networkInit"@),
            0x0019 => Some("stackStatusHandler"@),
            0x0022 => Some("permitJoining"@),
            0x0024 => Some("trustCenterJoinHandler"@),
            0x0026 => Some("getEui64"@),
            0x0034 => Some("sendUnicast"@),
            0x003f => Some("messageSentHandler"@),
            0x0045 => Some("incomingMessageHandler"@),
            0x0053 => Some("setConfigurationValue"@),
            0x0055 => Some("setPolicy"@),
            0x0111 => Some("importTransientKey"@),
            _ => None,
        },
        frame_id.text() == match frame_id.known_name() {
            Some(name) => name + " ("@ + hex(frame_id.0 as nat, 4) + ")"@,
            None => "frame "@ + hex(frame_id.0 as nat, 4),
        },
{
}

/// Eight statuses have a name; a status is reported by its name, where it has
/// one, and always by its number.
pub proof fn statuses_are_reported_by_number(status: SlStatus)
    ensures
        status.known_name() == match status.0 {
            0x0000 => Some("OK"@),
            0x0001 => Some("FAIL"@),
            0x0002 => Some("INVALID_STATE"@),
            0x000f => Some("NOT_SUPPORTED"@),
            0x0021 => Some("INVALID_PARAMETER"@),
            0x0b13 => Some("NETWORK_UP"@),
            0x0b14 => Some("NETWORK_DOWN"@),
            0x0b16 => Some("NOT_JOINED"@),
            _ => None,
        },
        status.text() == match status.known_name() {
            Some(name) => name + " ("@ + hex(status.0 as nat, 4) + ")"@,
            None => "status "@ + hex(status.0 as nat, 4),
        },
{
}

/// An error of the link says what it is about, with each number that it
/// carries in its place.
pub proof fn link_errors_say_their_numbers(a: usize, b: usize, x: u8, y: u8, c: u16, d: u16)
    ensures
        (AshError::BadCrc { computed: c, carried: d }).message() == "ASH CRC mismatch: computed "@
            + hex(c as nat, 4) + ", frame carried "@ + hex(d as nat, 4),
        (AshError::TooShort { length: a, minimum: b }).message() == "ASH frame is "@ + decimal(
            a as nat,
        ) + " bytes, shorter than the minimum "@ + decimal(b as nat),
        (AshError::TooLong { length: a, maximum: b }).message() == "ASH frame is "@ + decimal(
            a as nat,
        ) + " bytes, longer than the maximum "@ + decimal(b as nat),
        (AshError::InvalidControl { control: x, length: a }).message() == "ASH control byte "@
            + hex(x as nat, 2) + " is not a valid frame of "@ + decimal(a as nat) + " bytes"@,
        AshError::Cancelled.message() == "the NCP cancelled the frame in progress"@,
        AshError::Substituted.message() == "the NCP reported a corrupted frame"@,
        (AshError::NcpError { version: x, code: y }).message() == "the NCP reported error code "@
            + hex(y as nat, 2) + " (ASH version "@ + decimal(x as nat) + ")"@,
        (AshError::NcpReset { version: x, code: y }).message() == "the NCP reset with code "@ + hex(
            y as nat,
            2,
        ) + " (ASH version "@ + decimal(x as nat) + ")"@,
        AshError::ResetFailed.message()
            == "the NCP did not answer a reset within the allowed attempts"@,
        (AshError::OutOfSequence { received: x, expected: y }).message() == "ASH frame number "@
            + decimal(x as nat) + " arrived while expecting "@ + decimal(y as nat),
        AshError::NotConnected.message() == "ASH is not connected"@,
        AshError::Timeout.message() == "ASH timed out waiting for the NCP"@,
        (AshError::WindowFull { outstanding: a, limit: b }).message()
            == "the ASH send window is full ("@ + decimal(a as nat) + " of "@ + decimal(b as nat)
            + " frames unacknowledged)"@,
{
}

/// An error of the protocol says what it is about, with each number and each
/// id that it carries in its place.
pub proof fn protocol_errors_say_their_numbers(
    a: usize,
    b: usize,
    x: u8,
    value: u32,
    id: FrameId,
    other: FrameId,
    version: ProtocolVersion,
    status: SlStatus,
    text: &'static str,
    reason: String,
    error: AshError,
)
    ensures
        (EzspError::TruncatedFrame { needed: a, available: b }).message()
            == "frame ended early: needed "@ + decimal(a as nat) + " more bytes, "@ + decimal(
            b as nat,
        ) + " available"@,
        (EzspError::FrameTooLong { length: a, limit: b }).message() == "frame is "@ + decimal(
            a as nat,
        ) + " bytes; EZSP permits at most "@ + decimal(b as nat),
        (EzspError::PayloadTooLong { length: a, limit: b }).message() == "payload is "@ + decimal(
            a as nat,
        ) + " bytes; a length prefix holds at most "@ + decimal(b as nat),
        (EzspError::MalformedHeader { reason: text }).message() == "malformed frame header: "@
            + text@,
        (EzspError::TrailingBytes { frame_id: id, extra: a }).message() == decimal(a as nat)
            + " bytes left after decoding the response to "@ + id.text(),
        (EzspError::UnsupportedVersion { negotiated: version }).message()
            == "the NCP speaks EZSP "@ + version.text() + ", which this build does not support"@,
        (EzspError::UnsupportedCommand { frame_id: id, version }).message() == id.text()
            + " is not available in EZSP "@ + version.text(),
        (EzspError::UnexpectedResponse { expected: id, actual: other }).message()
            == "expected a response to "@ + id.text() + ", got "@ + other.text(),
        (EzspError::SequenceMismatch { sequence: x }).message()
            == "no command is waiting on sequence "@ + decimal(x as nat),
        (EzspError::UnknownEnum { name: text, value }).message() == text@ + " has no variant for "@
            + hex(value as nat, 2),
        (EzspError::Status { status }).message() == "the NCP returned "@ + status.text(),
        (EzspError::Timeout { frame_id: id }).message() == id.text() + " timed out"@,
        (EzspError::NcpReset { frame_id: id }).message() == "the NCP reset while "@ + id.text()
            + " was pending"@,
        EzspError::NotConnected.message() == "not connected to an NCP"@,
        (EzspError::Transport { reason }).message() == "transport failure: "@ + reason@,
        EzspError::Ash(error).message() == "ASH: "@ + error.message(),
{
}

/// An error of the transport says what failed and why.
pub proof fn transport_errors_say_their_reason(
    path: String,
    reason: String,
    operation: &'static str,
)
    ensures
        (TransportError::Open { path, reason }).message() == "cannot open "@ + path@ + ": "@
            + reason@,
        (TransportError::Io { operation, reason }).message() == operation@ + " failed: "@ + reason@,
        TransportError::Closed.message() == "the transport closed"@,
{
}

/// Four failures are of the moment; trying any other again gives the same.
pub proof fn failures_of_the_moment_are_transient(error: EzspError)
    ensures
        error.transient() <==> match error {
            EzspError::Timeout { .. } => true,
            EzspError::NcpReset { .. } => true,
            EzspError::Transport { .. } => true,
            EzspError::Ash(_) => true,
            _ => false,
        },
{
}

} // verus!
