//! Frames on the serial line.

use vstd::prelude::*;

use crate::ash::codec::{
    completed, covered, crc_of, crc_shifted, crc_step, encode_refusal, lfsr, randomised, reserved,
    stuffed, stuffed_byte, wire, with_crc, Decoded, DecodedModel, DecoderModel,
};
use crate::ash::error::AshError;
use crate::ash::frame::{AshFrame, FrameModel};

verus! {

/// The pseudo-random sequence is that of one register that runs on: it starts
/// at 0x42, and each step shifts it right by one and, exactly where a set bit
/// falls out, XORs 0xb8 in.
pub proof fn the_register_runs_on(index: nat)
    ensures
        lfsr(0) == 0x42,
        lfsr(index + 1) == if lfsr(index) % 2 == 1 {
            ((lfsr(index) / 2) as u8) ^ 0xb8
        } else {
            (lfsr(index) / 2) as u8
        },
{
    let seed = lfsr(index);
    assert(lfsr(index + 1) == if seed & 1 == 0 { seed >> 1 } else { (seed >> 1) ^ 0xb8 });
    assert(seed >> 1 == seed / 2 && (seed & 1 == 0 <==> seed % 2 == 0)) by (bit_vector);
}

/// What randomising XORs into the bytes of a data field: 0x42 into the first,
/// and into each further one the register one step on from the byte before it,
/// whatever the data and however long.
pub proof fn randomising_runs_on_through_the_field(data: Seq<u8>, at: int)
    requires
        0 <= at < data.len(),
    ensures
        randomised(data).len() == data.len(),
        randomised(data)[0] ^ data[0] == 0x42,
        at + 1 < data.len() ==> ({
            let mask = randomised(data)[at] ^ data[at];
            let next = randomised(data)[at + 1] ^ data[at + 1];
            next == if mask % 2 == 1 {
                ((mask / 2) as u8) ^ 0xb8
            } else {
                (mask / 2) as u8
            }
        }),
{
    let first = data[0];
    let byte = data[at];
    let mask = lfsr(at as nat);
    assert((first ^ 0x42) ^ first == 0x42) by (bit_vector);
    assert((byte ^ mask) ^ byte == mask) by (bit_vector);
    the_register_runs_on(at as nat);
    if at + 1 < data.len() {
        let other = data[at + 1];
        let next = lfsr((at + 1) as nat);
        assert((other ^ next) ^ other == next) by (bit_vector);
    }
}

/// Randomising one byte depends on where it stands and on nothing else of the
/// field.
pub proof fn randomising_depends_on_the_place_alone(first: Seq<u8>, second: Seq<u8>, at: int)
    requires
        0 <= at < first.len(),
        0 <= at < second.len(),
    ensures
        randomised(first)[at] ^ first[at] == randomised(second)[at] ^ second[at],
{
    let (a, b, mask) = (first[at], second[at], lfsr(at as nat));
    assert((a ^ mask) ^ a == (b ^ mask) ^ b) by (bit_vector);
}

/// One byte through the CRC, as whole bytes are folded: the register is turned
/// by a byte, the new byte goes in at the low end, and the low byte spreads.
pub open spec fn crc_folded(register: u16, byte: u8) -> u16 {
    let turned = ((register >> 8) | (register << 8)) ^ (byte as u16);
    let spread = turned ^ ((turned & 0xff) >> 4);
    let crossed = spread ^ (spread << 12);
    crossed ^ ((crossed & 0xff) << 5)
}

/// The CRC is CRC-16/CCITT-FALSE: 0xffff over nothing, and one folded byte
/// further for each byte, whatever came before.
pub proof fn the_crc_folds_byte_by_byte(bytes: Seq<u8>, byte: u8, register: u16)
    ensures
        crc_of(Seq::<u8>::empty()) == 0xffff,
        crc_of(bytes.push(byte)) == crc_folded(crc_of(bytes), byte),
        crc_step(register, byte) == crc_folded(register, byte),
{
    assert(bytes.push(byte).drop_last() =~= bytes);
    bits_fold(crc_of(bytes), byte);
    bits_fold(register, byte);
}

proof fn bits_fold(register: u16, byte: u8)
    ensures
        crc_step(register, byte) == crc_folded(register, byte),
{
    let c0 = register ^ ((byte as u16) << 8);
    reveal_with_fuel(crc_shifted, 9);
    let c1 = if c0 & 0x8000 == 0 { c0 << 1 } else { (c0 << 1) ^ 0x1021 };
    let c2 = if c1 & 0x8000 == 0 { c1 << 1 } else { (c1 << 1) ^ 0x1021 };
    let c3 = if c2 & 0x8000 == 0 { c2 << 1 } else { (c2 << 1) ^ 0x1021 };
    let c4 = if c3 & 0x8000 == 0 { c3 << 1 } else { (c3 << 1) ^ 0x1021 };
    let c5 = if c4 & 0x8000 == 0 { c4 << 1 } else { (c4 << 1) ^ 0x1021 };
    let c6 = if c5 & 0x8000 == 0 { c5 << 1 } else { (c5 << 1) ^ 0x1021 };
    let c7 = if c6 & 0x8000 == 0 { c6 << 1 } else { (c6 << 1) ^ 0x1021 };
    let c8 = if c7 & 0x8000 == 0 { c7 << 1 } else { (c7 << 1) ^ 0x1021 };
    assert(crc_shifted(c0, 1) == c1);
    assert(crc_shifted(c0, 2) == c2);
    assert(crc_shifted(c0, 3) == c3);
    assert(crc_shifted(c0, 4) == c4);
    assert(crc_shifted(c0, 5) == c5);
    assert(crc_shifted(c0, 6) == c6);
    assert(crc_shifted(c0, 7) == c7);
    assert(crc_step(register, byte) == c8);
    let turned = ((register >> 8) | (register << 8)) ^ (byte as u16);
    let spread = turned ^ ((turned & 0xff) >> 4);
    let crossed = spread ^ (spread << 12);
    assert(c8 == crossed ^ ((crossed & 0xff) << 5)) by (bit_vector)
        requires
            c0 == register ^ ((byte as u16) << 8),
            c1 == (if c0 & 0x8000 == 0 { c0 << 1 } else { (c0 << 1) ^ 0x1021 }),
            c2 == (if c1 & 0x8000 == 0 { c1 << 1 } else { (c1 << 1) ^ 0x1021 }),
            c3 == (if c2 & 0x8000 == 0 { c2 << 1 } else { (c2 << 1) ^ 0x1021 }),
            c4 == (if c3 & 0x8000 == 0 { c3 << 1 } else { (c3 << 1) ^ 0x1021 }),
            c5 == (if c4 & 0x8000 == 0 { c4 << 1 } else { (c4 << 1) ^ 0x1021 }),
            c6 == (if c5 & 0x8000 == 0 { c5 << 1 } else { (c5 << 1) ^ 0x1021 }),
            c7 == (if c6 & 0x8000 == 0 { c6 << 1 } else { (c6 << 1) ^ 0x1021 }),
            c8 == (if c7 & 0x8000 == 0 { c7 << 1 } else { (c7 << 1) ^ 0x1021 }),
            turned == ((register >> 8) | (register << 8)) ^ (byte as u16),
            spread == turned ^ ((turned & 0xff) >> 4),
            crossed == spread ^ (spread << 12),
    ;
}

/// Six bytes are reserved on the line and no others.
pub proof fn six_bytes_are_reserved(byte: u8)
    ensures
        reserved(byte) <==> byte == 0x11 || byte == 0x13 || byte == 0x18 || byte == 0x1a || byte
            == 0x7d || byte == 0x7e,
{
}

/// Stuffing goes byte by byte: what stands before and behind a byte does not
/// matter to it, a reserved one becomes 0x7d and itself with bit 0x20 turned,
/// and any other stays.
pub proof fn stuffing_goes_byte_by_byte(first: Seq<u8>, second: Seq<u8>, byte: u8)
    ensures
        stuffed(Seq::<u8>::empty()) == Seq::<u8>::empty(),
        stuffed(first + second) == stuffed(first) + stuffed(second),
        stuffed(seq![byte]) == if byte == 0x11 || byte == 0x13 || byte == 0x18 || byte == 0x1a
            || byte == 0x7d || byte == 0x7e {
            seq![0x7du8, byte ^ 0x20]
        } else {
            seq![byte]
        },
    decreases second.len(),
{
    let one = seq![byte];
    assert(one.drop_last() =~= Seq::<u8>::empty());
    assert(stuffed(one.drop_last()) =~= Seq::<u8>::empty());
    assert(one.last() == byte);
    assert(stuffed(one) =~= stuffed_byte(byte));
    if second.len() == 0 {
        assert(first + second =~= first);
        assert(stuffed(first) + Seq::<u8>::empty() =~= stuffed(first));
    } else {
        let head = second.drop_last();
        stuffing_goes_byte_by_byte(first, head, byte);
        assert((first + second).drop_last() =~= first + head);
        assert(stuffed(first + second) =~= stuffed(first) + stuffed(second));
    }
}

/// A frame on the wire: control byte, body, CRC with its high byte first, all
/// of it stuffed, and a delimiter. The body of a data frame is randomised, and
/// no other; the CRC is over the bytes as they are sent.
pub proof fn frames_are_laid_out_on_the_wire(frame: FrameModel)
    ensures
        ({
            let bytes = with_crc(frame);
            let body = bytes.subrange(1, bytes.len() - 2);
            let sent = bytes.take(bytes.len() - 2);
            &&& wire(frame) == stuffed(bytes).push(0x7e)
            &&& bytes.len() == frame.body().len() + 3
            &&& bytes[0] == frame.control()
            &&& body == if frame is Data { randomised(frame.body()) } else { frame.body() }
            &&& 256 * bytes[bytes.len() - 2] + bytes[bytes.len() - 1] == crc_of(sent)
        }),
{
    let bytes = with_crc(frame);
    assert(bytes.take(bytes.len() - 2) =~= covered(frame));
    assert(bytes.subrange(1, bytes.len() - 2) =~= if frame is Data {
        randomised(frame.body())
    } else {
        frame.body()
    });
}

/// Only a data field can be too long: more than 128 bytes are refused. Up to
/// 130 the error gives the field's length and limit, beyond that the frame's.
pub proof fn long_data_fields_are_refused(frame: FrameModel)
    requires
        frame.body().len() <= usize::MAX - 3,
    ensures
        ({
            let length = frame.body().len();
            encode_refusal(frame) == if !(frame is Data) || length <= 128 {
                None
            } else if length <= 130 {
                Some(AshError::TooLong { length: length as usize, maximum: 128 })
            } else {
                Some(AshError::TooLong { length: (length + 3) as usize, maximum: 133 })
            }
        }),
{
}

/// The fields of a control byte: a data frame has its top bit clear, its number
/// in the three bits below, then the resend bit, then the number it expects;
/// the other kinds have their own high bits.
pub proof fn control_bytes_hold_their_fields(frame: FrameModel)
    ensures
        ({
            let control = frame.control();
            match frame {
                FrameModel::Data { frame_num, ack_num, retransmit, .. } => {
                    &&& control / 128 == 0
                    &&& control / 16 == frame_num % 8
                    &&& (control / 8) % 2 == 1 <==> retransmit
                    &&& control % 8 == ack_num % 8
                },
                FrameModel::Ack { ack_num, not_ready } => {
                    &&& control / 16 == 8
                    &&& (control / 8) % 2 == 1 <==> not_ready
                    &&& control % 8 == ack_num % 8
                },
                FrameModel::Nak { ack_num, not_ready } => {
                    &&& control / 16 == 10
                    &&& (control / 8) % 2 == 1 <==> not_ready
                    &&& control % 8 == ack_num % 8
                },
                FrameModel::Rst => control == 0xc0,
                FrameModel::RstAck { .. } => control == 0xc1,
                FrameModel::Error { .. } => control == 0xc2,
            }
        }),
{
}

/// What stands behind the control byte of each kind.
pub proof fn bodies_hold_what_frames_carry(
    frame_num: u8,
    ack_num: u8,
    flag: bool,
    payload: Seq<u8>,
    version: u8,
    code: u8,
)
    ensures
        ({
            let data = FrameModel::Data { frame_num, ack_num, retransmit: flag, payload };
            let ack = FrameModel::Ack { ack_num, not_ready: flag };
            let nak = FrameModel::Nak { ack_num, not_ready: flag };
            let rstack = FrameModel::RstAck { version, reset_code: code };
            let error = FrameModel::Error { version, error_code: code };
            &&& data.body() == payload
            &&& ack.body() == Seq::<u8>::empty()
            &&& nak.body() == Seq::<u8>::empty()
            &&& FrameModel::Rst.body() == Seq::<u8>::empty()
            &&& rstack.body() == seq![version, code]
            &&& error.body() == seq![version, code]
            &&& data.acknowledges() == Some(ack_num)
            &&& ack.acknowledges() == Some(ack_num)
            &&& nak.acknowledges() == Some(ack_num)
            &&& FrameModel::Rst.acknowledges() is None
            &&& rstack.acknowledges() is None
            &&& error.acknowledges() is None
            &&& data.reduced() == (FrameModel::Data {
                frame_num: (frame_num % 8) as u8,
                ack_num: (ack_num % 8) as u8,
                retransmit: flag,
                payload,
            })
            &&& ack.reduced() == (FrameModel::Ack {
                ack_num: (ack_num % 8) as u8,
                not_ready: flag,
            })
            &&& nak.reduced() == (FrameModel::Nak {
                ack_num: (ack_num % 8) as u8,
                not_ready: flag,
            })
            &&& FrameModel::Rst.reduced() == FrameModel::Rst
            &&& rstack.reduced() == rstack
            &&& error.reduced() == error
        }),
{
}

/// A control byte put together from its fields parses to those fields: data
/// with any body up to 128 bytes, acknowledgements and rejections with none.
pub proof fn composed_control_bytes_parse(
    number: int,
    flag: bool,
    ack: int,
    unused: int,
    body: Seq<u8>,
)
    requires
        0 <= number < 8,
        0 <= ack < 8,
        0 <= unused < 2,
    ensures
        ({
            let low = if flag { 8 + ack } else { ack };
            let data = FrameModel::from_parts((16 * number + low) as u8, body);
            let acked = FrameModel::from_parts((128 + 16 * unused + low) as u8, body);
            let naked = FrameModel::from_parts((160 + 16 * unused + low) as u8, body);
            &&& data == if body.len() <= 128 {
                Ok::<FrameModel, AshError>(
                    FrameModel::Data {
                        frame_num: number as u8,
                        ack_num: ack as u8,
                        retransmit: flag,
                        payload: body,
                    },
                )
            } else {
                Err(AshError::TooLong { length: body.len() as usize, maximum: 128 })
            }
            &&& acked == if body.len() == 0 {
                Ok::<FrameModel, AshError>(
                    FrameModel::Ack { ack_num: ack as u8, not_ready: flag },
                )
            } else {
                Err(
                    AshError::InvalidControl {
                        control: (128 + 16 * unused + low) as u8,
                        length: body.len() as usize,
                    },
                )
            }
            &&& naked == if body.len() == 0 {
                Ok::<FrameModel, AshError>(
                    FrameModel::Nak { ack_num: ack as u8, not_ready: flag },
                )
            } else {
                Err(
                    AshError::InvalidControl {
                        control: (160 + 16 * unused + low) as u8,
                        length: body.len() as usize,
                    },
                )
            }
        }),
{
}

/// The three fixed control bytes mean what they do only with their own length
/// of body, and every other byte from 0xc0 on means nothing.
pub proof fn fixed_control_bytes_parse(control: u8, body: Seq<u8>)
    requires
        control >= 0xc0,
    ensures
        FrameModel::from_parts(control, body) == if control == 0xc0 && body.len() == 0 {
            Ok::<FrameModel, AshError>(FrameModel::Rst)
        } else if control == 0xc1 && body.len() == 2 {
            Ok(FrameModel::RstAck { version: body[0], reset_code: body[1] })
        } else if control == 0xc2 && body.len() == 2 {
            Ok(FrameModel::Error { version: body[0], error_code: body[1] })
        } else {
            Err(AshError::InvalidControl { control, length: body.len() as usize })
        },
{
}

/// The model of a frame keeps every field in its place.
pub proof fn frames_are_modelled_field_by_field(frame: AshFrame, decoded: Decoded)
    ensures
        match frame {
            AshFrame::Data { frame_num, ack_num, retransmit, payload } => frame@
                == (FrameModel::Data { frame_num, ack_num, retransmit, payload: payload@ }),
            AshFrame::Ack { ack_num, not_ready } => frame@ == (FrameModel::Ack {
                ack_num,
                not_ready,
            }),
            AshFrame::Nak { ack_num, not_ready } => frame@ == (FrameModel::Nak {
                ack_num,
                not_ready,
            }),
            AshFrame::Rst => frame@ == FrameModel::Rst,
            AshFrame::RstAck { version, reset_code } => frame@ == (FrameModel::RstAck {
                version,
                reset_code,
            }),
            AshFrame::Error { version, error_code } => frame@ == (FrameModel::Error {
                version,
                error_code,
            }),
        },
        match decoded {
            Decoded::Frame(frame) => decoded@ == DecodedModel::Frame(frame@),
            Decoded::Rejected(error) => decoded@ == DecodedModel::Rejected(error),
        },
{
}

/// What one byte does to a decoder, by its value: flow control nothing, 0x1a
/// and 0x7e start over, 0x18 spoils the frame, 0x7d escapes the next data byte,
/// and any other byte is data, with bit 0x20 turned where it was escaped. Past
/// 133 bytes the frame is spoiled and no more is kept.
pub proof fn bytes_move_the_decoder(decoder: DecoderModel, byte: u8)
    ensures
        ({
            let after = decoder.after(byte);
            let plain = if decoder.escaped { byte ^ 0x20 } else { byte };
            if byte == 0x11 || byte == 0x13 {
                after == decoder
            } else if byte == 0x1a || byte == 0x7e {
                after.partial.len() == 0 && !after.escaped && after.dropping is None
            } else if byte == 0x18 {
                &&& after.partial == decoder.partial
                &&& after.escaped == decoder.escaped
                &&& after.dropping == Some(AshError::Substituted)
            } else if byte == 0x7d {
                &&& after.partial == decoder.partial
                &&& after.escaped
                &&& after.dropping == decoder.dropping
            } else if decoder.partial.len() < 133 {
                &&& after.partial == decoder.partial.push(plain)
                &&& !after.escaped
                &&& after.dropping == decoder.dropping
            } else {
                &&& after.partial == decoder.partial
                &&& !after.escaped
                &&& after.dropping == Some(AshError::TooLong { length: 134, maximum: 133 })
            }
        }),
        DecoderModel::clean().partial.len() == 0,
        !DecoderModel::clean().escaped,
        DecoderModel::clean().dropping is None,
{
}

/// What one byte completes: nothing but a delimiter does; it reports a spoiled
/// frame by its reason, and else judges what was collected.
pub proof fn bytes_complete_frames(decoder: DecoderModel, byte: u8)
    ensures
        byte != 0x7e ==> decoder.yields(byte) is None,
        decoder.dropping matches Some(error) ==> decoder.yields(0x7e) == Some(
            DecodedModel::Rejected(error),
        ),
        decoder.dropping is None ==> decoder.yields(0x7e) == completed(decoder.partial),
{
}

/// A run of bytes does what its bytes do one after the other.
pub proof fn runs_go_byte_by_byte(decoder: DecoderModel, bytes: Seq<u8>, byte: u8)
    ensures
        decoder.after_all(Seq::<u8>::empty()) == decoder,
        decoder.yields_all(Seq::<u8>::empty()) == Seq::<DecodedModel>::empty(),
        decoder.after_all(bytes.push(byte)) == decoder.after_all(bytes).after(byte),
        decoder.yields_all(bytes.push(byte)) == match decoder.after_all(bytes).yields(byte) {
            Some(decoded) => decoder.yields_all(bytes).push(decoded),
            None => decoder.yields_all(bytes),
        },
{
    assert(bytes.push(byte).drop_last() =~= bytes);
}

/// What a collected frame is judged to be: a body between a control byte and a
/// CRC is handed on, de-randomised where the control byte says data, exactly
/// where the CRC fits; else the error gives both CRCs.
pub proof fn collected_frames_are_judged(control: u8, body: Seq<u8>, high: u8, low: u8)
    ensures
        ({
            let sent = seq![control] + body;
            let carried = (256 * high + low) as u16;
            let plain = if control < 128 { randomised(body) } else { body };
            completed(sent + seq![high, low]) == if crc_of(sent) != carried {
                Some(DecodedModel::Rejected(AshError::BadCrc { computed: crc_of(sent), carried }))
            } else {
                match FrameModel::from_parts(control, plain) {
                    Ok(frame) => Some(DecodedModel::Frame(frame)),
                    Err(error) => Some(DecodedModel::Rejected(error)),
                }
            }
        }),
        completed(Seq::<u8>::empty()) is None,
        completed(seq![control]) == Some(
            DecodedModel::Rejected(AshError::TooShort { length: 1, minimum: 3 }),
        ),
        completed(seq![high, low]) == Some(
            DecodedModel::Rejected(AshError::TooShort { length: 2, minimum: 3 }),
        ),
{
    let sent = seq![control] + body;
    let bytes = sent + seq![high, low];
    assert(bytes.take(bytes.len() - 2) =~= sent);
    assert(sent.skip(1) =~= body);
}

/// Damage in transit is what a resend can mend, and nothing else is.
pub proof fn only_damage_is_mended_by_a_resend(error: AshError)
    ensures
        error.nak_mends() <==> match error {
            AshError::BadCrc { .. } => true,
            AshError::Substituted => true,
            _ => false,
        },
{
}

} // verus!
