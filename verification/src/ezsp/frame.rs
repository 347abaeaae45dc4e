//! EZSP frame headers.
//!
//! # Two header formats, and why both are needed
//!
//! EZSP 8 introduced an extended header with a two-byte frame id and a two-byte
//! frame control. Every command uses it — except the very first `version`
//! command, which cannot, because the version has not been negotiated yet and
//! the host does not know which format the NCP will accept.
//!
//! So the first `version` goes out in the **legacy** three-byte header, and
//! everything after it uses the extended one. That is not a quirk worth hiding:
//! it is the bootstrap, and a library that hardcodes one format either cannot
//! connect or cannot send anything afterwards.
//!
//! ```text
//! legacy    [ seq | frame control | frame id            | parameters… ]
//! extended  [ seq | control lo | control hi | id lo | id hi | parameters… ]
//! ```

use vstd::prelude::*;
use vstd::slice::slice_subrange;

use crate::ezsp::codec::{bytes16, le16, truncated, u16_round_trips, Reader, Writer};
use crate::ezsp::error::EzspError;
use crate::ezsp::version::ProtocolVersion;
use crate::text::{hex, push_hex};

verus! {

/// An EZSP command or response identifier.
///
/// Two bytes, because the extended header carries two. The legacy header sends
/// only the low byte, which is why every command reachable in the legacy format
/// has an id below 256.
///
/// The constants are the raw numbers of the ids this crate knows.
#[derive(Debug, Clone, Copy, PartialEq, Eq, Structural, PartialOrd, Ord, Hash)]
pub struct FrameId(pub u16);

impl FrameId {
    /// `version` — protocol negotiation. Always the first command sent.
    pub const VERSION: u16 = 0x0000;

    /// `addEndpoint`.
    pub const ADD_ENDPOINT: u16 = 0x0002;

    /// `networkInit`.
    pub const NETWORK_INIT: u16 = 0x0017;

    /// `permitJoining`.
    pub const PERMIT_JOINING: u16 = 0x0022;

    /// `getEui64`.
    pub const GET_EUI64: u16 = 0x0026;

    /// `sendUnicast`.
    pub const SEND_UNICAST: u16 = 0x0034;

    /// `sendBroadcast`.
    pub const SEND_BROADCAST: u16 = 0x0036;

    /// `setManufacturerCode`.
    pub const SET_MANUFACTURER_CODE: u16 = 0x0015;

    /// `formNetwork`.
    pub const FORM_NETWORK: u16 = 0x001e;

    /// `networkState`.
    pub const NETWORK_STATE: u16 = 0x0018;

    /// `sendMulticast`.
    pub const SEND_MULTICAST: u16 = 0x0038;

    /// `getNetworkKeyInfo`.
    pub const GET_NETWORK_KEY_INFO: u16 = 0x0116;

    /// `getNetworkParameters`.
    pub const GET_NETWORK_PARAMETERS: u16 = 0x0028;

    /// `getConfigurationValue`.
    pub const GET_CONFIGURATION_VALUE: u16 = 0x0052;

    /// `setInitialSecurityState`.
    pub const SET_INITIAL_SECURITY_STATE: u16 = 0x0068;

    /// `clearTransientLinkKeys`.
    pub const CLEAR_TRANSIENT_LINK_KEYS: u16 = 0x006b;

    /// `getValue`.
    pub const GET_VALUE: u16 = 0x00aa;

    /// `exportKey`.
    pub const EXPORT_KEY: u16 = 0x0114;

    /// `setConfigurationValue`.
    pub const SET_CONFIGURATION_VALUE: u16 = 0x0053;

    /// `setPolicy`.
    pub const SET_POLICY: u16 = 0x0055;

    /// `importTransientKey`.
    pub const IMPORT_TRANSIENT_KEY: u16 = 0x0111;

    /// `stackStatusHandler` callback.
    pub const STACK_STATUS_HANDLER: u16 = 0x0019;

    /// `messageSentHandler` callback.
    pub const MESSAGE_SENT_HANDLER: u16 = 0x003f;

    /// `incomingMessageHandler` callback.
    pub const INCOMING_MESSAGE_HANDLER: u16 = 0x0045;

    /// `trustCenterJoinHandler` callback.
    pub const TRUST_CENTER_JOIN_HANDLER: u16 = 0x0024;

    /// Whether this id fits the legacy header's single byte.
    pub fn fits_legacy(self) -> (res: bool)
        ensures
            res == (self.0 < 0x100),
    {
        self.0 <= 0xff
    }

    /// The documented name, when this build knows one.
    pub open spec fn known_name(self) -> Option<Seq<char>> {
        if self.0 == FrameId::VERSION {
            Some("version"@)
        } else if self.0 == FrameId::ADD_ENDPOINT {
            Some("addEndpoint"@)
        } else if self.0 == FrameId::NETWORK_INIT {
            Some("networkInit"@)
        } else if self.0 == FrameId::PERMIT_JOINING {
            Some("permitJoining"@)
        } else if self.0 == FrameId::GET_EUI64 {
            Some("getEui64"@)
        } else if self.0 == FrameId::SEND_UNICAST {
            Some("sendUnicast"@)
        } else if self.0 == FrameId::SET_CONFIGURATION_VALUE {
            Some("setConfigurationValue"@)
        } else if self.0 == FrameId::SET_POLICY {
            Some("setPolicy"@)
        } else if self.0 == FrameId::IMPORT_TRANSIENT_KEY {
            Some("importTransientKey"@)
        } else if self.0 == FrameId::STACK_STATUS_HANDLER {
            Some("stackStatusHandler"@)
        } else if self.0 == FrameId::MESSAGE_SENT_HANDLER {
            Some("messageSentHandler"@)
        } else if self.0 == FrameId::INCOMING_MESSAGE_HANDLER {
            Some("incomingMessageHandler"@)
        } else if self.0 == FrameId::TRUST_CENTER_JOIN_HANDLER {
            Some("trustCenterJoinHandler"@)
        } else {
            None
        }
    }

    /// The documented name, when this build knows one.
    ///
    /// For diagnostics only. An unknown id is reported as its number rather
    /// than as "unknown", because the number is what someone looks up.
    pub fn name(self) -> (res: Option<&'static str>)
        ensures
            match res {
                Some(name) => self.known_name() == Some(name@),
                None => self.known_name() is None,
            },
    {
        if self.0 == FrameId::VERSION {
            Some("version")
        } else if self.0 == FrameId::ADD_ENDPOINT {
            Some("addEndpoint")
        } else if self.0 == FrameId::NETWORK_INIT {
            Some("networkInit")
        } else if self.0 == FrameId::PERMIT_JOINING {
            Some("permitJoining")
        } else if self.0 == FrameId::GET_EUI64 {
            Some("getEui64")
        } else if self.0 == FrameId::SEND_UNICAST {
            Some("sendUnicast")
        } else if self.0 == FrameId::SET_CONFIGURATION_VALUE {
            Some("setConfigurationValue")
        } else if self.0 == FrameId::SET_POLICY {
            Some("setPolicy")
        } else if self.0 == FrameId::IMPORT_TRANSIENT_KEY {
            Some("importTransientKey")
        } else if self.0 == FrameId::STACK_STATUS_HANDLER {
            Some("stackStatusHandler")
        } else if self.0 == FrameId::MESSAGE_SENT_HANDLER {
            Some("messageSentHandler")
        } else if self.0 == FrameId::INCOMING_MESSAGE_HANDLER {
            Some("incomingMessageHandler")
        } else if self.0 == FrameId::TRUST_CENTER_JOIN_HANDLER {
            Some("trustCenterJoinHandler")
        } else {
            None
        }
    }

    /// The frames whose parameters are, or hold, a key.
    pub open spec fn is_secret(self) -> bool {
        self.0 == FrameId::EXPORT_KEY || self.0 == FrameId::IMPORT_TRANSIENT_KEY || self.0
            == FrameId::SET_INITIAL_SECURITY_STATE || self.0 == FrameId::GET_NETWORK_KEY_INFO
    }

    /// Whether a frame with this id carries key material in its parameters.
    ///
    /// Used to keep keys out of logs. Frame payloads are logged at debug level
    /// because a wire trace is the most useful thing a bug report can carry.
    /// For these four the payload *is* the secret: an `exportKey` response is
    /// sixteen bytes of network key, and `importTransientKey` and
    /// `setInitialSecurityState` carry keys outbound.
    ///
    /// Erring towards redaction: a frame id wrongly listed here costs a little
    /// debuggability, while one wrongly omitted publishes a network key in
    /// whatever log the reporter pastes into a public issue.
    #[must_use]
    pub fn carries_key_material(self) -> (res: bool)
        ensures
            res == self.is_secret(),
    {
        self.0 == FrameId::EXPORT_KEY || self.0 == FrameId::IMPORT_TRANSIENT_KEY || self.0
            == FrameId::SET_INITIAL_SECURITY_STATE || self.0 == FrameId::GET_NETWORK_KEY_INFO
    }

    /// The id as it is reported: its name where there is one, and always its
    /// number.
    pub open spec fn text(self) -> Seq<char> {
        match self.known_name() {
            Some(name) => name + " ("@ + hex(self.0 as nat, 4) + ")"@,
            None => "frame "@ + hex(self.0 as nat, 4),
        }
    }

    /// The id as it is reported.
    pub fn to_string(&self) -> (res: String)
        ensures
            res@ == self.text(),
    {
        let mut out = String::new();
        match self.name() {
            Some(name) => {
                out.append(name);
                out.append(" (");
                push_hex(&mut out, self.0 as u64, 4);
                out.append(")");
            },
            None => {
                out.append("frame ");
                push_hex(&mut out, self.0 as u64, 4);
            },
        }
        proof {
            assert(out@ =~= self.text());
        }
        out
    }
}

/// Which header layout a frame uses.
#[derive(Debug, Clone, Copy, PartialEq, Eq, Structural)]
pub enum HeaderFormat {
    /// Three bytes, one-byte frame id. Only the bootstrap `version` command.
    Legacy,
    /// Five bytes, two-byte frame id. Everything else.
    Extended,
}

impl HeaderFormat {
    /// How many bytes the header occupies.
    pub open spec fn width(self) -> nat {
        match self {
            HeaderFormat::Legacy => 3,
            HeaderFormat::Extended => 5,
        }
    }

    /// How many bytes the header occupies.
    ///
    /// Named `byte_len` rather than `len`: a `len` without an `is_empty` reads
    /// as a container, and a header is never empty.
    pub fn byte_len(self) -> (res: usize)
        ensures
            res == self.width(),
    {
        match self {
            HeaderFormat::Legacy => 3,
            HeaderFormat::Extended => 5,
        }
    }
}

/// Whether a frame is going to the NCP or coming back.
#[derive(Debug, Clone, Copy, PartialEq, Eq, Structural)]
pub enum Direction {
    /// Host to NCP.
    Command,
    /// NCP to host.
    Response,
}

/// The parsed frame control field.
///
/// Only the bits this crate acts on are modelled. The rest are carried in
/// `raw_low` so a frame can be logged faithfully without this type having to
/// grow a field for every bit the moment a new firmware sets one.
#[derive(Debug, Clone, Copy, PartialEq, Eq, Structural)]
pub struct FrameControl {
    /// Command or response.
    ///
    /// The bools below are each an independent bit of one wire field rather
    /// than a set of options a caller chooses between, so grouping them into
    /// sub-structs would obscure the layout they mirror.
    pub direction: Direction,
    /// Set when the frame is an asynchronous callback rather than a response.
    ///
    /// The single most important bit in this crate. Without it, a callback
    /// arriving while a command is pending can be mistaken for that command's
    /// answer, and the caller gets a decoded structure built from an unrelated
    /// frame -- which looks like a successful call returning nonsense.
    pub is_callback: bool,
    /// The NCP has more callbacks queued.
    pub callback_pending: bool,
    /// The NCP overflowed its callback queue and dropped some.
    pub overflow: bool,
    /// The response was truncated by the NCP.
    pub truncated: bool,
    /// The low control byte as received.
    pub raw_low: u8,
}

impl FrameControl {
    const DIRECTION_RESPONSE: u8 = 0x80;

    const OVERFLOW: u8 = 0x01;

    const TRUNCATED: u8 = 0x02;

    const CALLBACK_PENDING: u8 = 0x04;

    /// Set for a callback delivered asynchronously.
    const ASYNC_CALLBACK: u8 = 0x10;

    /// What a low control byte means, bit by bit.
    pub open spec fn of_low_byte(low: u8) -> FrameControl {
        FrameControl {
            direction: if low & 0x80 != 0 { Direction::Response } else { Direction::Command },
            is_callback: low & 0x10 != 0,
            callback_pending: low & 0x04 != 0,
            overflow: low & 0x01 != 0,
            truncated: low & 0x02 != 0,
            raw_low: low,
        }
    }

    /// A control byte for an outgoing command.
    pub fn command() -> (res: Self)
        ensures
            res == FrameControl::of_low_byte(0),
            res.direction == Direction::Command,
            !res.is_callback,
    {
        proof {
            assert(0u8 & 0x80 == 0 && 0u8 & 0x10 == 0 && 0u8 & 0x04 == 0 && 0u8 & 0x01 == 0
                && 0u8 & 0x02 == 0) by (bit_vector);
        }
        FrameControl {
            direction: Direction::Command,
            is_callback: false,
            callback_pending: false,
            overflow: false,
            truncated: false,
            raw_low: 0x00,
        }
    }

    /// Parses a received low control byte.
    pub fn from_low_byte(low: u8) -> (res: Self)
        ensures
            res == FrameControl::of_low_byte(low),
    {
        FrameControl {
            direction: if low & FrameControl::DIRECTION_RESPONSE == 0 {
                Direction::Command
            } else {
                Direction::Response
            },
            is_callback: low & FrameControl::ASYNC_CALLBACK != 0,
            callback_pending: low & FrameControl::CALLBACK_PENDING != 0,
            overflow: low & FrameControl::OVERFLOW != 0,
            truncated: low & FrameControl::TRUNCATED != 0,
            raw_low: low,
        }
    }

    /// The low control byte to send.
    pub fn to_low_byte(self) -> (res: u8)
        ensures
            res == match self.direction {
                Direction::Command => 0x00u8,
                Direction::Response => 0x80u8,
            },
    {
        match self.direction {
            Direction::Command => 0x00,
            Direction::Response => FrameControl::DIRECTION_RESPONSE,
        }
    }
}

/// A decoded EZSP frame: header plus the undecoded parameter bytes.
#[derive(Debug, Clone, PartialEq, Eq)]
pub struct Frame<'a> {
    /// The sequence number, echoed by the NCP in a response.
    pub sequence: u8,
    /// The control field.
    pub control: FrameControl,
    /// Which command or callback this is.
    pub frame_id: FrameId,
    /// The parameters, still encoded.
    pub parameters: &'a [u8],
}

/// A decoded EZSP frame as a mathematical value.
pub struct FrameParts {
    /// The sequence number.
    pub sequence: u8,
    /// The control field.
    pub control: FrameControl,
    /// Which command or callback this is.
    pub frame_id: FrameId,
    /// The parameters, still encoded.
    pub parameters: Seq<u8>,
}

impl<'a> View for Frame<'a> {
    type V = FrameParts;

    open spec fn view(&self) -> FrameParts {
        FrameParts {
            sequence: self.sequence,
            control: self.control,
            frame_id: self.frame_id,
            parameters: self.parameters@,
        }
    }
}

/// The largest EZSP frame the protocol permits.
pub const MAX_FRAME_LENGTH: usize = 218;

/// The extended frame format version this crate speaks, in the high control
/// byte's low two bits.
pub const EXTENDED_FRAME_FORMAT_VERSION: u8 = 0x01;

/// The bits of the high control byte that carry the frame format version.
pub const FRAME_FORMAT_VERSION_MASK: u8 = 0x03;

/// The header of an outgoing command.
pub open spec fn header(sequence: u8, frame_id: FrameId, format: HeaderFormat) -> Seq<u8> {
    match format {
        HeaderFormat::Legacy => seq![sequence, 0x00, frame_id.0 as u8],
        HeaderFormat::Extended => seq![sequence, 0x00, EXTENDED_FRAME_FORMAT_VERSION] + bytes16(
            frame_id.0,
        ),
    }
}

/// Whether a header in this format can carry this id.
pub open spec fn expressible(frame_id: FrameId, format: HeaderFormat) -> bool {
    format == HeaderFormat::Legacy ==> frame_id.0 < 0x100
}

/// Writes an outgoing command header.
///
/// # Errors
///
/// [`EzspError::MalformedHeader`] if a legacy header is asked to carry a frame
/// id that does not fit in one byte. That combination cannot be expressed on
/// the wire, and sending the low byte alone would silently address a different
/// command. Only the sequence number has been written then.
pub fn write_header(
    out: &mut Writer,
    sequence: u8,
    frame_id: FrameId,
    format: HeaderFormat,
) -> (res: Result<(), EzspError>)
    ensures
        final(out).target() == old(out).target(),
        match res {
            Ok(()) => expressible(frame_id, format) && final(out)@ == old(out)@ + header(
                sequence,
                frame_id,
                format,
            ),
            Err(error) => {
                &&& !expressible(frame_id, format)
                &&& error matches EzspError::MalformedHeader { reason } && reason@
                    == "a legacy header cannot carry a frame id above 0xff"@
                &&& final(out)@ == old(out)@ + seq![sequence]
            },
        },
{
    out.u8(sequence);
    match format {
        HeaderFormat::Legacy => {
            if !frame_id.fits_legacy() {
                return Err(
                    EzspError::MalformedHeader {
                        reason: "a legacy header cannot carry a frame id above 0xff",
                    },
                );
            }
            out.u8(FrameControl::command().to_low_byte());
            // Low byte only; the legacy header has no room for more.
            out.u8(frame_id.0 as u8);
        },
        HeaderFormat::Extended => {
            out.u8(FrameControl::command().to_low_byte());
            // The high control byte carries the extended frame format version
            // in its low two bits. Zero here would claim a format the NCP does
            // not recognise, and it answers nothing at all.
            out.u8(EXTENDED_FRAME_FORMAT_VERSION);
            out.u16(frame_id.0);
        },
    }
    proof {
        assert(out@ =~= old(out)@ + header(sequence, frame_id, format));
    }
    Ok(())
}

/// Whether the control bytes describe the format: the extended header says
/// which version of itself it is.
pub open spec fn format_known(bytes: Seq<u8>, format: HeaderFormat) -> bool {
    format == HeaderFormat::Extended ==> bytes[2] & FRAME_FORMAT_VERSION_MASK
        == EXTENDED_FRAME_FORMAT_VERSION
}

/// Why a received frame is refused, if it is.
pub open spec fn parse_failure(bytes: Seq<u8>, format: HeaderFormat) -> Option<EzspError> {
    if bytes.len() > MAX_FRAME_LENGTH {
        Some(EzspError::FrameTooLong { length: bytes.len() as usize, limit: MAX_FRAME_LENGTH })
    } else if bytes.len() < format.width() {
        Some(truncated(format.width(), bytes.len()))
    } else if !format_known(bytes, format) {
        Some(EzspError::MalformedHeader { reason: "unknown extended frame format version" })
    } else {
        None
    }
}

/// What a received frame holds, field by field.
pub open spec fn parts(bytes: Seq<u8>, format: HeaderFormat) -> FrameParts {
    FrameParts {
        sequence: bytes[0],
        control: FrameControl::of_low_byte(bytes[1]),
        frame_id: match format {
            HeaderFormat::Legacy => FrameId(bytes[2] as u16),
            HeaderFormat::Extended => FrameId(le16(bytes, 3)),
        },
        parameters: bytes.skip(format.width() as int),
    }
}

/// Parses a received frame.
///
/// The format is the caller's to say: the answer to the bootstrap `version`
/// command comes back in the legacy format, and nothing in the bytes tells it
/// from an extended frame.
///
/// # Errors
///
/// [`EzspError::FrameTooLong`] for a frame longer than the protocol permits,
/// [`EzspError::TruncatedFrame`] for one too short to hold a header, and
/// [`EzspError::MalformedHeader`] when the control bytes describe no format
/// this crate knows.
pub fn parse(bytes: &[u8], format: HeaderFormat) -> (res: Result<Frame<'_>, EzspError>)
    ensures
        match res {
            Ok(frame) => parse_failure(bytes@, format) is None && frame@ == parts(bytes@, format),
            Err(error) => parse_failure(bytes@, format) == Some(error),
        },
{
    if bytes.len() > MAX_FRAME_LENGTH {
        return Err(EzspError::FrameTooLong { length: bytes.len(), limit: MAX_FRAME_LENGTH });
    }
    if bytes.len() < format.byte_len() {
        return Err(
            EzspError::TruncatedFrame { needed: format.byte_len(), available: bytes.len() },
        );
    }
    let sequence: u8 = bytes[0];
    let control = FrameControl::from_low_byte(bytes[1]);
    let frame_id = match format {
        HeaderFormat::Legacy => FrameId(bytes[2] as u16),
        HeaderFormat::Extended => {
            if bytes[2] & FRAME_FORMAT_VERSION_MASK != EXTENDED_FRAME_FORMAT_VERSION {
                return Err(
                    EzspError::MalformedHeader {
                        reason: "unknown extended frame format version",
                    },
                );
            }
            FrameId(bytes[3] as u16 + 0x100 * (bytes[4] as u16))
        },
    };
    let parameters: &[u8] = slice_subrange(bytes, format.byte_len(), bytes.len());
    proof {
        assert(parameters@ =~= bytes@.skip(format.width() as int));
    }
    Ok(Frame { sequence, control, frame_id, parameters })
}

/// A reader over a frame's parameters.
pub fn parameters<'a>(frame: &Frame<'a>, version: ProtocolVersion) -> (res: Reader<'a>)
    ensures
        res.rest() == frame@.parameters,
        res.target() == version,
{
    Reader::new(frame.parameters, version)
}

/// A header that can be written reads back as what was put in, the parameters
/// behind it untouched: a frame addresses the command it was meant for.
pub proof fn headers_round_trip(
    sequence: u8,
    frame_id: FrameId,
    format: HeaderFormat,
    parameters: Seq<u8>,
)
    requires
        expressible(frame_id, format),
        parameters.len() <= MAX_FRAME_LENGTH - format.width(),
    ensures
        parse_failure(header(sequence, frame_id, format) + parameters, format) is None,
        parts(header(sequence, frame_id, format) + parameters, format) == (FrameParts {
            sequence,
            control: FrameControl::of_low_byte(0),
            frame_id,
            parameters,
        }),
{
    let bytes = header(sequence, frame_id, format) + parameters;
    assert(bytes.skip(format.width() as int) =~= parameters);
    assert(0x01u8 & 0x03 == 0x01) by (bit_vector);
    if format == HeaderFormat::Extended {
        u16_round_trips(frame_id.0, parameters);
        assert(bytes[3] == bytes16(frame_id.0)[0] && bytes[4] == bytes16(frame_id.0)[1]);
    }
}

} // verus!
