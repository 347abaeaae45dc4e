//! ASH frame types and the control byte.
//!
//! Every ASH frame is `[control, payload…, crc_hi, crc_lo, FLAG]`, and the
//! control byte alone says which of six kinds it is and how long the rest must
//! be. Modelling that as an enum rather than a struct of booleans means an
//! impossible combination -- a `RST` carrying an ack number, say -- cannot be
//! constructed.
//!
//! ```text
//! DATA    0b0FFF_RAAA   FFF = frame number, R = retransmit, AAA = ack number
//! ACK     0b1000_NAAA   N   = not-ready
//! NAK     0b1010_NAAA
//! RST     0b1100_0000
//! RSTACK  0b1100_0001   payload: [ash version, reset code]
//! ERROR   0b1100_0010   payload: [ash version, error code]
//! ```

use vstd::prelude::*;
use vstd::slice::slice_to_vec;

use crate::ash::error::AshError;

verus! {

/// The ASH protocol version this crate speaks.
pub const ASH_VERSION: u8 = 2;

/// The largest data field an ASH frame may carry.
pub const MAX_DATA_FIELD_LEN: usize = 128;

/// Frame numbers and ack numbers are three bits wide, so they wrap at 8.
pub const SEQUENCE_MODULUS: u8 = 8;

const CONTROL_DATA_MASK: u8 = 0x80;

const CONTROL_SHORT_MASK: u8 = 0xe0;

const ACK_NUM_MASK: u8 = 0x07;

const FRAME_NUM_MASK: u8 = 0x70;

const FRAME_NUM_SHIFT: u8 = 4;

const RETRANSMIT_MASK: u8 = 0x08;

const NOT_READY_MASK: u8 = 0x08;

const CONTROL_ACK: u8 = 0x80;

const CONTROL_NAK: u8 = 0xa0;

const CONTROL_RST: u8 = 0xc0;

const CONTROL_RSTACK: u8 = 0xc1;

const CONTROL_ERROR: u8 = 0xc2;

/// One ASH frame.
#[derive(Debug, Clone, PartialEq, Eq)]
pub enum AshFrame {
    /// Carries an EZSP frame.
    Data {
        /// This frame's number, 0..8.
        frame_num: u8,
        /// The number of the next frame we expect from the NCP.
        ack_num: u8,
        /// Set when this is a resend of a frame already sent.
        ///
        /// The NCP uses it to tell a genuine duplicate from a new frame that
        /// happens to reuse a number after a wrap.
        retransmit: bool,
        /// The EZSP frame, already de-randomised on receive.
        payload: Vec<u8>,
    },
    /// Acknowledges frames up to `ack_num`.
    Ack {
        /// The next frame number expected.
        ack_num: u8,
        /// The sender cannot accept more data yet.
        not_ready: bool,
    },
    /// Rejects a frame and asks for a resend from `ack_num`.
    Nak {
        /// The next frame number expected.
        ack_num: u8,
        /// The sender cannot accept more data yet.
        not_ready: bool,
    },
    /// Host asks the NCP to reset.
    Rst,
    /// The NCP has reset and is ready.
    RstAck {
        /// ASH version the NCP speaks.
        version: u8,
        /// Why it reset.
        reset_code: u8,
    },
    /// The NCP hit an error and needs resetting.
    Error {
        /// ASH version the NCP speaks.
        version: u8,
        /// What went wrong.
        error_code: u8,
    },
}

/// An ASH frame as a mathematical value: the payload is a sequence of bytes.
pub enum FrameModel {
    /// Carries an EZSP frame.
    Data { frame_num: u8, ack_num: u8, retransmit: bool, payload: Seq<u8> },
    /// Acknowledges frames up to `ack_num`.
    Ack { ack_num: u8, not_ready: bool },
    /// Rejects a frame and asks for a resend from `ack_num`.
    Nak { ack_num: u8, not_ready: bool },
    /// Asks the NCP to reset.
    Rst,
    /// The NCP has reset.
    RstAck { version: u8, reset_code: u8 },
    /// The NCP hit an error.
    Error { version: u8, error_code: u8 },
}

impl View for AshFrame {
    type V = FrameModel;

    open spec fn view(&self) -> FrameModel {
        match *self {
            AshFrame::Data { frame_num, ack_num, retransmit, payload } => FrameModel::Data {
                frame_num,
                ack_num,
                retransmit,
                payload: payload@,
            },
            AshFrame::Ack { ack_num, not_ready } => FrameModel::Ack { ack_num, not_ready },
            AshFrame::Nak { ack_num, not_ready } => FrameModel::Nak { ack_num, not_ready },
            AshFrame::Rst => FrameModel::Rst,
            AshFrame::RstAck { version, reset_code } => FrameModel::RstAck { version, reset_code },
            AshFrame::Error { version, error_code } => FrameModel::Error { version, error_code },
        }
    }
}

/// A flag as the bit with weight eight.
pub open spec fn bit_three(flag: bool) -> int {
    if flag { 8 } else { 0 }
}

impl FrameModel {
    /// The control byte: the kind in the high bits, then the fields at their
    /// places, numbers reduced to three bits.
    pub open spec fn control(self) -> u8 {
        match self {
            FrameModel::Data { frame_num, ack_num, retransmit, .. } => (16 * (frame_num % 8)
                + bit_three(retransmit) + ack_num % 8) as u8,
            FrameModel::Ack { ack_num, not_ready } => (0x80 + bit_three(not_ready) + ack_num
                % 8) as u8,
            FrameModel::Nak { ack_num, not_ready } => (0xa0 + bit_three(not_ready) + ack_num
                % 8) as u8,
            FrameModel::Rst => 0xc0,
            FrameModel::RstAck { .. } => 0xc1,
            FrameModel::Error { .. } => 0xc2,
        }
    }

    /// The bytes between the control byte and the CRC, not randomised.
    pub open spec fn body(self) -> Seq<u8> {
        match self {
            FrameModel::Data { payload, .. } => payload,
            FrameModel::RstAck { version, reset_code } => seq![version, reset_code],
            FrameModel::Error { version, error_code } => seq![version, error_code],
            _ => seq![],
        }
    }

    /// The same frame with its numbers reduced to the three bits that the wire
    /// carries.
    pub open spec fn reduced(self) -> FrameModel {
        match self {
            FrameModel::Data { frame_num, ack_num, retransmit, payload } => FrameModel::Data {
                frame_num: (frame_num % 8) as u8,
                ack_num: (ack_num % 8) as u8,
                retransmit,
                payload,
            },
            FrameModel::Ack { ack_num, not_ready } => FrameModel::Ack {
                ack_num: (ack_num % 8) as u8,
                not_ready,
            },
            FrameModel::Nak { ack_num, not_ready } => FrameModel::Nak {
                ack_num: (ack_num % 8) as u8,
                not_ready,
            },
            other => other,
        }
    }

    /// The number up to which this frame acknowledges data.
    pub open spec fn acknowledges(self) -> Option<u8> {
        match self {
            FrameModel::Data { ack_num, .. } => Some(ack_num),
            FrameModel::Ack { ack_num, .. } => Some(ack_num),
            FrameModel::Nak { ack_num, .. } => Some(ack_num),
            _ => None,
        }
    }

    /// The frame that a control byte and a body describe, or why there is none.
    ///
    /// Below 0x80 every byte is a data frame; 0x80..0xa0 are acknowledgements,
    /// 0xa0..0xc0 rejections, and of the rest only three values mean anything.
    pub open spec fn from_parts(control: u8, body: Seq<u8>) -> Result<FrameModel, AshError> {
        let invalid = AshError::InvalidControl { control, length: body.len() as usize };
        let ack_num = (control % 8) as u8;
        let flagged = (control / 8) % 2 == 1;
        if control < 0x80 {
            if body.len() > MAX_DATA_FIELD_LEN {
                Err(AshError::TooLong { length: body.len() as usize, maximum: MAX_DATA_FIELD_LEN })
            } else {
                Ok(
                    FrameModel::Data {
                        frame_num: (control / 16) as u8,
                        ack_num,
                        retransmit: flagged,
                        payload: body,
                    },
                )
            }
        } else if control < 0xa0 && body.len() == 0 {
            Ok(FrameModel::Ack { ack_num, not_ready: flagged })
        } else if 0xa0 <= control < 0xc0 && body.len() == 0 {
            Ok(FrameModel::Nak { ack_num, not_ready: flagged })
        } else if control == 0xc0 && body.len() == 0 {
            Ok(FrameModel::Rst)
        } else if control == 0xc1 && body.len() == 2 {
            Ok(FrameModel::RstAck { version: body[0], reset_code: body[1] })
        } else if control == 0xc2 && body.len() == 2 {
            Ok(FrameModel::Error { version: body[0], error_code: body[1] })
        } else {
            Err(invalid)
        }
    }
}

/// The three fields of a control byte read by masks are the quotients and
/// remainders by powers of two.
proof fn masks_read_fields(control: u8)
    ensures
        control & 0x80 == 0 <==> control < 0x80,
        control & 0x07 == control % 8,
        control & 0x08 != 0 <==> (control / 8) % 2 == 1,
        control < 0x80 ==> (control & 0x70) >> 4 == control / 16,
        control & 0xe0 == 0x80 <==> 0x80 <= control < 0xa0,
        control & 0xe0 == 0xa0 <==> 0xa0 <= control < 0xc0,
{
    assert(control & 0x80 == 0 <==> control < 0x80) by (bit_vector);
    assert(control & 0x07 == control % 8) by (bit_vector);
    assert(control & 0x08 != 0 <==> (control / 8) % 2 == 1) by (bit_vector);
    assert(control < 0x80 ==> (control & 0x70) >> 4 == control / 16) by (bit_vector);
    assert(control & 0xe0 == 0x80 <==> 0x80 <= control && control < 0xa0) by (bit_vector);
    assert(control & 0xe0 == 0xa0 <==> 0xa0 <= control && control < 0xc0) by (bit_vector);
}

/// Joining the fields by `|` is adding them at their weights.
proof fn fields_join(high: u8, number: u8, flag: u8, ack: u8)
    requires
        number < 8,
        ack < 8,
        flag == 0 || flag == 8,
        high == 0x80 || high == 0xa0,
    ensures
        (number << 4) | flag | ack == 16 * number + flag + ack,
        high | flag | ack == high + flag + ack,
{
    assert((number << 4) | flag | ack == (16 * number + flag + ack) as u8) by (bit_vector)
        requires
            number < 8,
            ack < 8,
            flag == 0 || flag == 8,
    ;
    assert(high | flag | ack == (high + flag + ack) as u8) by (bit_vector)
        requires
            ack < 8,
            flag == 0 || flag == 8,
            high == 0x80 || high == 0xa0,
    ;
}

impl AshFrame {
    /// The control byte for this frame.
    pub fn control(&self) -> (res: u8)
        ensures
            res == self@.control(),
    {
        match self {
            AshFrame::Data { frame_num, ack_num, retransmit, .. } => {
                let number: u8 = *frame_num % SEQUENCE_MODULUS;
                let ack: u8 = *ack_num % SEQUENCE_MODULUS;
                let flag: u8 = if *retransmit { RETRANSMIT_MASK } else { 0 };
                proof {
                    fields_join(0x80, number, flag, ack);
                }
                (number << FRAME_NUM_SHIFT) | flag | ack
            },
            AshFrame::Ack { ack_num, not_ready } => {
                let ack: u8 = *ack_num % SEQUENCE_MODULUS;
                let flag: u8 = if *not_ready { NOT_READY_MASK } else { 0 };
                proof {
                    fields_join(CONTROL_ACK, 0, flag, ack);
                }
                CONTROL_ACK | flag | ack
            },
            AshFrame::Nak { ack_num, not_ready } => {
                let ack: u8 = *ack_num % SEQUENCE_MODULUS;
                let flag: u8 = if *not_ready { NOT_READY_MASK } else { 0 };
                proof {
                    fields_join(CONTROL_NAK, 0, flag, ack);
                }
                CONTROL_NAK | flag | ack
            },
            AshFrame::Rst => CONTROL_RST,
            AshFrame::RstAck { .. } => CONTROL_RSTACK,
            AshFrame::Error { .. } => CONTROL_ERROR,
        }
    }

    /// The bytes after the control byte, before the CRC.
    ///
    /// Owned rather than borrowed because `RSTACK` and `ERROR` carry two bytes
    /// that are fields of the enum rather than a stored slice.
    pub fn body(&self) -> (res: Vec<u8>)
        ensures
            res@ == self@.body(),
    {
        let res: Vec<u8> = match self {
            AshFrame::Data { payload, .. } => slice_to_vec(payload.as_slice()),
            AshFrame::RstAck { version, reset_code } => vec![*version, *reset_code],
            AshFrame::Error { version, error_code } => vec![*version, *error_code],
            AshFrame::Ack { .. } | AshFrame::Nak { .. } | AshFrame::Rst => Vec::new(),
        };
        proof {
            assert(res@ =~= self@.body());
        }
        res
    }

    /// Whether this frame acknowledges data, and up to what number.
    pub fn acknowledges(&self) -> (res: Option<u8>)
        ensures
            res == self@.acknowledges(),
    {
        match self {
            AshFrame::Data { ack_num, .. } => Some(*ack_num),
            AshFrame::Ack { ack_num, .. } => Some(*ack_num),
            AshFrame::Nak { ack_num, .. } => Some(*ack_num),
            _ => None,
        }
    }

    /// Parses a control byte and body into a frame.
    ///
    /// The length is checked against the type, because a control byte alone
    /// cannot be trusted: `RSTACK` with no body is not a short `RSTACK`, it is
    /// a corrupted frame that would otherwise be read as a successful reset.
    ///
    /// # Errors
    ///
    /// [`AshError::InvalidControl`] when the control byte and length disagree,
    /// and [`AshError::TooLong`] for an oversized data field.
    pub fn from_parts(control: u8, body: &[u8]) -> (res: Result<AshFrame, AshError>)
        ensures
            match res {
                Ok(frame) => FrameModel::from_parts(control, body@) == Ok::<FrameModel, AshError>(
                    frame@,
                ),
                Err(error) => FrameModel::from_parts(control, body@) == Err::<FrameModel, AshError>(
                    error,
                ),
            },
    {
        proof {
            masks_read_fields(control);
        }
        let invalid = AshError::InvalidControl { control, length: body.len() };
        // A data frame is the only kind with the top bit clear, and the only
        // kind with a variable-length body.
        if control & CONTROL_DATA_MASK == 0 {
            if body.len() > MAX_DATA_FIELD_LEN {
                return Err(
                    AshError::TooLong { length: body.len(), maximum: MAX_DATA_FIELD_LEN },
                );
            }
            return Ok(
                AshFrame::Data {
                    frame_num: (control & FRAME_NUM_MASK) >> FRAME_NUM_SHIFT,
                    ack_num: control & ACK_NUM_MASK,
                    retransmit: control & RETRANSMIT_MASK != 0,
                    payload: slice_to_vec(body),
                },
            );
        }
        // The three fixed control bytes are told apart before the masked ones,
        // so that no mask can claim them.

        if control == CONTROL_RST {
            if body.is_empty() {
                Ok(AshFrame::Rst)
            } else {
                Err(invalid)
            }
        } else if control == CONTROL_RSTACK {
            if body.len() != 2 {
                return Err(invalid);
            }
            Ok(AshFrame::RstAck { version: body[0], reset_code: body[1] })
        } else if control == CONTROL_ERROR {
            if body.len() != 2 {
                return Err(invalid);
            }
            Ok(AshFrame::Error { version: body[0], error_code: body[1] })
        } else {
            if !body.is_empty() {
                return Err(invalid);
            }
            let ack_num: u8 = control & ACK_NUM_MASK;
            let not_ready = control & NOT_READY_MASK != 0;
            let kind: u8 = control & CONTROL_SHORT_MASK;
            if kind == CONTROL_ACK {
                Ok(AshFrame::Ack { ack_num, not_ready })
            } else if kind == CONTROL_NAK {
                Ok(AshFrame::Nak { ack_num, not_ready })
            } else {
                Err(invalid)
            }
        }
    }
}

/// The next sequence number after `n`, wrapping at 8.
///
/// Its own function because the wrap is where sequence bugs live: three bits
/// means 7 is followed by 0, and an implementation that increments freely
/// works for exactly seven frames.
pub fn next_sequence(n: u8) -> (res: u8)
    requires
        n < 255,
    ensures
        res == (n + 1) % 8,
{
    (n + 1) % SEQUENCE_MODULUS
}

/// Whatever the fields, a frame's control byte and body read back as that
/// frame with its numbers reduced to three bits: no field spills into another.
pub proof fn parts_round_trip(frame: FrameModel)
    requires
        frame.body().len() <= MAX_DATA_FIELD_LEN,
    ensures
        FrameModel::from_parts(frame.control(), frame.body()) == Ok::<FrameModel, AshError>(
            frame.reduced(),
        ),
{
}

/// A frame that parsed keeps the body it was parsed from, and its control byte
/// too, save for the bit with weight sixteen that `ACK` and `NAK` leave unused.
pub proof fn parsed_parts_are_kept(control: u8, body: Seq<u8>)
    ensures
        FrameModel::from_parts(control, body) matches Ok(frame) ==> {
            &&& frame.body() =~= body
            &&& frame.reduced() == frame
            &&& if 0x80 <= control < 0xc0 && (control / 16) % 2 == 1 {
                frame.control() + 16 == control
            } else {
                frame.control() == control
            }
        },
{
}

} // verus!
