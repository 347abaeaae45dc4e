//! What calls return and change, for whoever makes them.

use vstd::prelude::*;

use crate::ash::codec::{
    crc16, crc16_all, crc_of, decoded_models, encode, encode_refusal, is_reserved, randomise,
    randomised, wire, Decoded, Decoder, DecoderModel,
};
use crate::ash::error::AshError;
use crate::ash::frame::{next_sequence, AshFrame, FrameModel};
use crate::ash::state::{Connection, ConnectionState, Outbound};
use crate::ezsp::callback::Callback;
use crate::ezsp::codec::{bytes16, bytes32, Extent, EzspDecode, EzspEncode, Reader, Writer};
use crate::ezsp::command::PermitJoining;
use crate::ezsp::correlation::{Classified, Correlator, Pending};
use crate::ezsp::error::EzspError;
use crate::ezsp::frame::{
    header, parameters, parse, parse_failure, parts, write_header, Direction, Frame, FrameControl,
    FrameId, HeaderFormat,
};
use crate::ezsp::version::ProtocolVersion;
use crate::laws::bytes::{
    address, long, numbers_are_read_little_endian, numbers_go_out_little_endian, word,
};
use crate::laws::framing::{crc_folded, the_crc_folds_byte_by_byte};
use crate::laws::values::{status_len, status_number, statuses_are_their_numbers};
use crate::ncp::map_transport;
use crate::text::{decimal, hex, hex_digits, push_decimal, push_hex, push_hex_digits};
use crate::transport::error::TransportError;
use crate::transport::fake::{chunk_bytes, FakeTransport};
use crate::transport::serial::SerialSettings;
use crate::types::aps::{ApsFrame, ApsOptions, UnicastType};
use crate::types::network::{
    from_signed_byte, signed_byte, Decision, Eui64, NetworkInitBitmask, NodeId,
};
use crate::types::security::{
    InitialSecurityBitmask, SecurityKey, SecurityManContext, SecurityManFlags,
};
use crate::types::status::SlStatus;

verus! {

/// Sequence numbers step by one around eight, reserved bytes are told, and the
/// CRC of a byte string is that of its parts folded in one after the other.
pub proof fn line_functions_compute(
    number: u8,
    next: u8,
    byte: u8,
    told: bool,
    register: u16,
    stepped: u16,
    bytes: &[u8],
    crc: u16,
)
    ensures
        number < 8 && call_ensures(next_sequence, (number,), next) ==> next == if number == 7 {
            0
        } else {
            number + 1
        },
        call_ensures(is_reserved, (byte,), told) ==> (told <==> byte == 0x11 || byte == 0x13
            || byte == 0x18 || byte == 0x1a || byte == 0x7d || byte == 0x7e),
        call_ensures(crc16, (register, byte), stepped) ==> stepped == crc_folded(register, byte),
        call_ensures(crc16_all, (bytes,), crc) ==> crc == crc_of(bytes@),
{
    the_crc_folds_byte_by_byte(seq![], byte, register);
}

/// Randomising a buffer changes each byte by the sequence and nothing else.
pub proof fn randomise_changes_every_byte(data: &mut [u8], at: int)
    requires
        call_ensures(randomise, (data,), ()),
        0 <= at < old(data)@.len(),
    ensures
        final(data)@.len() == old(data)@.len(),
        final(data)@[at] == randomised(old(data)@)[at],
{
}

/// Encoding gives a frame's wire form, but for a data field past 128 bytes.
pub proof fn encode_gives_the_wire_form(frame: AshFrame, res: Result<Vec<u8>, AshError>)
    requires
        call_ensures(encode, (&frame,), res),
    ensures
        match res {
            Ok(bytes) => {
                &&& bytes@ == wire(frame@)
                &&& frame@ is Data ==> frame@.body().len() <= 128
            },
            Err(error) => {
                &&& frame@ is Data
                &&& frame@.body().len() > 128
                &&& encode_refusal(frame@) == Some(error)
            },
        },
{
}

/// A frame's parts are those of its model, and parts parse as the model's do.
pub proof fn frames_give_and_take_their_parts(
    frame: AshFrame,
    control: u8,
    body: Vec<u8>,
    number: Option<u8>,
    received: &[u8],
    res: Result<AshFrame, AshError>,
)
    ensures
        call_ensures(AshFrame::control, (&frame,), control) ==> control == frame@.control(),
        call_ensures(AshFrame::body, (&frame,), body) ==> body@ == frame@.body(),
        call_ensures(AshFrame::acknowledges, (&frame,), number) ==> number
            == frame@.acknowledges(),
        call_ensures(AshFrame::from_parts, (control, received), res) ==> match res {
            Ok(parsed) => FrameModel::from_parts(control, received@) == Ok::<FrameModel, AshError>(
                parsed@,
            ),
            Err(error) => FrameModel::from_parts(control, received@) == Err::<
                FrameModel,
                AshError,
            >(error),
        },
{
}

/// Errors of the link say whether a resend can mend them, and their message.
pub proof fn link_errors_answer(error: AshError, mends: bool, text: String)
    ensures
        call_ensures(AshError::is_recoverable_by_nak, (&error,), mends) ==> (mends <==> error
            is BadCrc || error is Substituted),
        call_ensures(AshError::to_string, (&error,), text) ==> text@ == error.message(),
{
}

/// A decoder starts and restarts empty, and feeding it does what its bytes do.
pub proof fn decoders_are_fed(decoder: &mut Decoder, bytes: &[u8], res: Vec<Decoded>, new: Decoder)
    ensures
        call_ensures(Decoder::new, (), new) ==> new@ == DecoderModel::clean() && new.wf(),
        call_ensures(Decoder::reset, (decoder,), ()) ==> final(decoder)@ == DecoderModel::clean()
            && final(decoder).wf(),
        old(decoder).wf() && call_ensures(Decoder::feed, (decoder, bytes), res) ==> {
            &&& final(decoder)@ == old(decoder)@.after_all(bytes@)
            &&& final(decoder).wf()
            &&& decoded_models(res@) == old(decoder)@.yields_all(bytes@)
        },
{
}

/// A connection tells its state, its numbers and how much is outstanding.
pub proof fn connections_tell_their_state(
    connection: Connection,
    state: ConnectionState,
    up: bool,
    count: usize,
    number: u8,
    new: Connection,
)
    ensures
        call_ensures(Connection::new, (), new) ==> {
            &&& new@.wf()
            &&& new@.state == ConnectionState::Disconnected
            &&& new@.next_tx_frame == 0
            &&& new@.next_rx_frame == 0
            &&& new@.in_flight.len() == 0
        },
        call_ensures(Connection::state, (&connection,), state) ==> state == connection@.state,
        call_ensures(Connection::is_connected, (&connection,), up) ==> (up <==> connection@.state
            == ConnectionState::Connected),
        call_ensures(Connection::in_flight, (&connection,), count) ==> count
            == connection@.in_flight.len(),
        call_ensures(Connection::next_tx_frame, (&connection,), number) ==> number
            == connection@.next_tx_frame,
        call_ensures(Connection::next_rx_frame, (&connection,), number) ==> number
            == connection@.next_rx_frame,
{
}

/// Sending on a connection: refused as the state says, without a change, or
/// numbered and queued.
pub proof fn connections_send(
    connection: &mut Connection,
    payload: Vec<u8>,
    res: Result<AshFrame, AshError>,
)
    requires
        old(connection)@.wf(),
        call_ensures(Connection::send_data, (connection, payload), res),
    ensures
        final(connection)@.wf(),
        match res {
            Ok(frame) => {
                &&& old(connection)@.state == ConnectionState::Connected
                &&& old(connection)@.in_flight.len() < 7
                &&& frame@ == (FrameModel::Data {
                    frame_num: old(connection)@.next_tx_frame,
                    ack_num: old(connection)@.next_rx_frame,
                    retransmit: false,
                    payload: payload@,
                })
                &&& final(connection)@ == old(connection)@.after_send(payload@)
            },
            Err(error) => {
                &&& final(connection)@ == old(connection)@
                &&& old(connection)@.send_refusal() == Some(error)
            },
        },
{
}

/// Receiving on a connection: what arrives moves it on, delivers and is
/// answered as its model says.
pub proof fn connections_receive(
    connection: &mut Connection,
    frame: AshFrame,
    res: (Option<Vec<u8>>, Outbound),
)
    requires
        old(connection)@.wf(),
        call_ensures(Connection::on_frame, (connection, &frame), res),
    ensures
        final(connection)@.wf(),
        final(connection)@ == old(connection)@.after_frame(frame@),
        res.0 is Some <==> old(connection)@.delivers(frame@) is Some,
        res.0 matches Some(payload) ==> old(connection)@.delivers(frame@) == Some(payload@),
        res.1@ == old(connection)@.answers(frame@),
{
}

/// The other moves of a connection: resetting, resending, and answering what
/// failed to decode, which changes nothing.
pub proof fn connections_recover(connection: &mut Connection, error: AshError, res: Outbound)
    requires
        old(connection)@.wf(),
    ensures
        call_ensures(Connection::begin_reset, (connection,), res) ==> {
            &&& final(connection)@ == old(connection)@.after_reset()
            &&& final(connection)@.wf()
            &&& res@ == old(connection)@.reset_sends()
        },
        call_ensures(Connection::retransmit_oldest, (connection,), res) ==> {
            &&& final(connection)@ == old(connection)@.after_retransmit()
            &&& final(connection)@.wf()
            &&& res@ == old(connection)@.retransmit_sends()
        },
        call_ensures(Connection::on_decode_failure, (connection, &error), res) ==> {
            &&& final(connection)@ == old(connection)@
            &&& res@ == old(connection)@.answers_failure(error)
        },
{
}

/// A version keeps its number and decides by it.
pub proof fn versions_answer(raw: u8, version: ProtocolVersion, number: u8, yes: bool, text: String)
    ensures
        call_ensures(ProtocolVersion::new, (raw,), version) ==> version.0 == raw,
        call_ensures(ProtocolVersion::raw, (version,), number) ==> number == version.0,
        call_ensures(ProtocolVersion::is_supported, (version,), yes) ==> (yes <==> 13 <= version.0
            && version.0 <= 19),
        call_ensures(ProtocolVersion::has_wide_status, (version,), yes) ==> (yes <==> version.0
            >= 14),
        call_ensures(ProtocolVersion::has_wide_message_tag, (version,), yes) ==> (yes
            <==> version.0 >= 14),
        call_ensures(ProtocolVersion::has_transient_key_flags, (version,), yes) ==> (yes
            <==> version.0 < 14),
        call_ensures(ProtocolVersion::to_string, (&version,), text) ==> text@ == version.text(),
{
}

/// What any value writes is appended, for the version of the writer, and an
/// error comes exactly where the value has one.
pub proof fn values_are_written<T: EzspEncode>(
    value: T,
    out: &mut Writer,
    res: Result<(), EzspError>,
)
    requires
        call_ensures(T::encode, (&value, out), res),
    ensures
        final(out)@ == old(out)@ + value.encoding(old(out).target()),
        final(out).target() == old(out).target(),
        res is Ok <==> value.encode_failure(old(out).target()) is None,
        res matches Err(error) ==> value.encode_failure(old(out).target()) == Some(error),
{
}

/// What any value is read from is passed, for the version of the reader: all of
/// it where it is there, and else what comes before the failure.
pub proof fn values_are_read<T: EzspDecode>(
    input: &mut Reader<'_>,
    res: Result<T, EzspError>,
    width: nat,
    reason: EzspError,
)
    requires
        call_ensures(T::decode, (input,), res),
    ensures
        final(input).target() == old(input).target(),
        res matches Ok(value) ==> value.read_from(old(input).rest(), old(input).target()),
        T::extent(old(input).rest(), old(input).target()) == Extent::Whole(width) ==> {
            &&& res is Ok
            &&& width <= old(input).rest().len()
            &&& final(input).rest() == old(input).rest().skip(width as int)
        },
        T::extent(old(input).rest(), old(input).target()) == (Extent::Fails {
            consumed: width,
            error: reason,
        }) ==> {
            &&& res == Err::<T, EzspError>(reason)
            &&& final(input).rest() == old(input).rest().skip(width as int)
        },
{
}

/// A reader gives numbers least significant byte first and passes them; where
/// the bytes do not suffice it passes nothing and says what was missing.
pub proof fn readers_read_numbers(
    input: &mut Reader<'_>,
    byte: Result<u8, EzspError>,
    number: Result<u16, EzspError>,
    large: Result<u32, EzspError>,
)
    ensures
        ({
            let bytes = old(input).rest();
            let n = bytes.len();
            &&& call_ensures(Reader::u8, (input,), byte) ==> if n >= 1 {
                &&& byte == Ok::<u8, EzspError>(bytes[0])
                &&& final(input).rest() == bytes.skip(1)
            } else {
                &&& byte == Err::<u8, EzspError>(
                    EzspError::TruncatedFrame { needed: 1, available: 0 },
                )
                &&& final(input).rest() == bytes
            }
            &&& call_ensures(Reader::u16, (input,), number) ==> if n >= 2 {
                &&& number matches Ok(value) && value == word(bytes, 0)
                &&& final(input).rest() == bytes.skip(2)
            } else {
                &&& number == Err::<u16, EzspError>(
                    EzspError::TruncatedFrame { needed: 2, available: n as usize },
                )
                &&& final(input).rest() == bytes
            }
            &&& call_ensures(Reader::u32, (input,), large) ==> if n >= 4 {
                &&& large matches Ok(value) && value == long(bytes, 0)
                &&& final(input).rest() == bytes.skip(4)
            } else {
                &&& large == Err::<u32, EzspError>(
                    EzspError::TruncatedFrame { needed: 4, available: n as usize },
                )
                &&& final(input).rest() == bytes
            }
        }),
{
    let bytes = old(input).rest();
    numbers_are_read_little_endian(bytes, 0);
    assert(bytes.skip(0) =~= bytes);
}

/// A reader gives byte strings whole, in order, and passes them; where the
/// bytes do not suffice it passes nothing, not even a length.
pub proof fn readers_read_strings(
    input: &mut Reader<'_>,
    wanted: usize,
    taken: Result<&[u8], EzspError>,
    rest: &[u8],
)
    ensures
        ({
            let bytes = old(input).rest();
            let n = bytes.len();
            let length = bytes[0] as int;
            &&& call_ensures(Reader::take, (input, wanted), taken) ==> if n >= wanted {
                &&& taken matches Ok(slice) && slice@ == bytes.take(wanted as int)
                &&& final(input).rest() == bytes.skip(wanted as int)
            } else {
                &&& taken matches Err(error) && error == (EzspError::TruncatedFrame {
                    needed: wanted,
                    available: n as usize,
                })
                &&& final(input).rest() == bytes
            }
            &&& call_ensures(Reader::length_prefixed, (input,), taken) ==> if n >= 1 && n >= 1
                + length {
                &&& taken matches Ok(slice) && slice@ == bytes.skip(1).take(length)
                &&& final(input).rest() == bytes.skip(1 + length)
            } else {
                &&& final(input).rest() == bytes
                &&& taken matches Err(error) && error == if n == 0 {
                    EzspError::TruncatedFrame { needed: 1, available: 0 }
                } else {
                    EzspError::TruncatedFrame {
                        needed: length as usize,
                        available: (n - 1) as usize,
                    }
                }
            }
            &&& call_ensures(Reader::take_rest, (input,), rest) ==> {
                &&& rest@ == bytes
                &&& final(input).rest().len() == 0
            }
        }),
{
    let bytes = old(input).rest();
    assert(bytes.skip(0) =~= bytes);
    if bytes.len() >= 1 && bytes.len() >= 1 + bytes[0] {
        assert(bytes.subrange(1, 1 + bytes[0]) =~= bytes.skip(1).take(bytes[0] as int));
    }
}

/// A reader gives arrays in order and passes them, or passes nothing.
pub proof fn readers_read_arrays<const N: usize>(
    input: &mut Reader<'_>,
    res: Result<[u8; N], EzspError>,
)
    requires
        call_ensures(Reader::array::<N>, (input,), res),
    ensures
        final(input).target() == old(input).target(),
        if old(input).rest().len() >= N {
            &&& res matches Ok(array) && array@ == old(input).rest().take(N as int)
            &&& final(input).rest() == old(input).rest().skip(N as int)
        } else {
            &&& res == Err::<[u8; N], EzspError>(
                EzspError::TruncatedFrame {
                    needed: N,
                    available: old(input).rest().len() as usize,
                },
            )
            &&& final(input).rest() == old(input).rest()
        },
{
    assert(old(input).rest().skip(0) =~= old(input).rest());
}

/// A reader starts with all its bytes and tells what is left without passing
/// it.
pub proof fn readers_tell_what_is_left(
    bytes: &[u8],
    version: ProtocolVersion,
    reader: Reader<'_>,
    told: ProtocolVersion,
    count: usize,
    empty: bool,
    rest: &[u8],
)
    ensures
        call_ensures(Reader::new, (bytes, version), reader) ==> reader.rest() == bytes@
            && reader.target() == version,
        call_ensures(Reader::version, (&reader,), told) ==> told == reader.target(),
        call_ensures(Reader::remaining, (&reader,), count) ==> count == reader.rest().len(),
        call_ensures(Reader::is_empty, (&reader,), empty) ==> (empty <==> reader.rest().len()
            == 0),
        call_ensures(Reader::peek_rest, (&reader,), rest) ==> rest@ == reader.rest(),
{
}

/// A writer appends numbers least significant byte first and byte strings in
/// order, changing nothing before them.
pub proof fn writers_append(
    out: &mut Writer,
    byte: u8,
    number: u16,
    large: u32,
    bytes: &[u8],
    res: Result<(), EzspError>,
)
    ensures
        ({
            let before = old(out)@;
            let after = final(out)@;
            let n = before.len() as int;
            &&& call_ensures(Writer::u8, (out, byte), ()) ==> after == before.push(byte)
            &&& call_ensures(Writer::u16, (out, number), ()) ==> {
                &&& after.len() == n + 2
                &&& after.take(n) == before
                &&& word(after, n) == number
            }
            &&& call_ensures(Writer::u32, (out, large), ()) ==> {
                &&& after.len() == n + 4
                &&& after.take(n) == before
                &&& long(after, n) == large
            }
            &&& call_ensures(Writer::bytes, (out, bytes), ()) ==> after == before + bytes@
            &&& call_ensures(Writer::length_prefixed, (out, bytes), res) ==> if bytes@.len()
                <= 255 {
                &&& res is Ok
                &&& after == before.push(bytes@.len() as u8) + bytes@
            } else {
                &&& res == Err::<(), EzspError>(
                    EzspError::PayloadTooLong { length: bytes@.len() as usize, limit: 255 },
                )
                &&& after == before
            }
        }),
{
    let before = old(out)@;
    let after = final(out)@;
    let n = before.len() as int;
    numbers_go_out_little_endian(number, large, 0);
    let two = bytes16(number);
    let four = bytes32(large);
    assert(before + seq![byte] =~= before.push(byte));
    assert((before + two).take(n) =~= before);
    assert((before + four).take(n) =~= before);
    assert(word(before + two, n) == word(two, 0));
    assert(long(before + four, n) == long(four, 0));
    if bytes@.len() <= 255 {
        let prefix = seq![bytes@.len() as u8];
        assert(before + (prefix + bytes@) =~= before.push(bytes@.len() as u8) + bytes@);
    } else {
        assert(before + Seq::<u8>::empty() =~= before);
    }
}

/// A writer starts empty and hands over exactly what was written.
pub proof fn writers_hand_over(
    version: ProtocolVersion,
    writer: Writer,
    told: ProtocolVersion,
    count: usize,
    empty: bool,
    bytes: Vec<u8>,
    slice: &[u8],
)
    ensures
        call_ensures(Writer::new, (version,), writer) ==> writer@.len() == 0 && writer.target()
            == version,
        call_ensures(Writer::version, (&writer,), told) ==> told == writer.target(),
        call_ensures(Writer::len, (&writer,), count) ==> count == writer@.len(),
        call_ensures(Writer::is_empty, (&writer,), empty) ==> (empty <==> writer@.len() == 0),
        call_ensures(Writer::into_vec, (writer,), bytes) ==> bytes@ == writer@,
        call_ensures(Writer::as_slice, (&writer,), slice) ==> slice@ == writer@,
{
}

/// Headers are appended where the format can express the id; else only the
/// sequence number is, and the error says why.
pub proof fn headers_are_written(
    out: &mut Writer,
    sequence: u8,
    frame_id: FrameId,
    format: HeaderFormat,
    res: Result<(), EzspError>,
)
    requires
        call_ensures(write_header, (out, sequence, frame_id, format), res),
    ensures
        final(out).target() == old(out).target(),
        if format == HeaderFormat::Legacy && frame_id.0 >= 256 {
            &&& res matches Err(error) && error is MalformedHeader
            &&& final(out)@ == old(out)@.push(sequence)
        } else {
            &&& res is Ok
            &&& final(out)@ == old(out)@ + header(sequence, frame_id, format)
        },
{
    assert(old(out)@ + seq![sequence] =~= old(out)@.push(sequence));
}

/// Frames are parsed into their parts or refused, and their parameters read
/// from the first byte.
pub proof fn frames_are_parsed(
    bytes: &[u8],
    format: HeaderFormat,
    res: Result<Frame<'_>, EzspError>,
    frame: Frame<'_>,
    version: ProtocolVersion,
    reader: Reader<'_>,
    width: usize,
)
    ensures
        call_ensures(parse, (bytes, format), res) ==> match res {
            Ok(parsed) => parse_failure(bytes@, format) is None && parsed@ == parts(bytes@, format),
            Err(error) => parse_failure(bytes@, format) == Some(error),
        },
        call_ensures(parameters, (&frame, version), reader) ==> reader.rest()
            == frame.parameters@ && reader.target() == version,
        call_ensures(HeaderFormat::byte_len, (format,), width) ==> width == if format
            == HeaderFormat::Legacy {
            3int
        } else {
            5
        },
{
}

/// Control bytes are read bit by bit; a command's is zero and a response's has
/// the top bit alone.
pub proof fn control_bytes_are_made_and_read(low: u8, control: FrameControl, byte: u8)
    ensures
        call_ensures(FrameControl::from_low_byte, (low,), control) ==> control
            == FrameControl::of_low_byte(low),
        call_ensures(FrameControl::command, (), control) ==> {
            &&& control.direction == Direction::Command
            &&& !control.is_callback
            &&& control.raw_low == 0
        },
        call_ensures(FrameControl::to_low_byte, (control,), byte) ==> byte == if control.direction
            == Direction::Response {
            128int
        } else {
            0
        },
{
}

/// Ids tell whether they fit one byte, whether they are secret, and their name.
pub proof fn frame_ids_answer(
    id: FrameId,
    yes: bool,
    name: Option<&'static str>,
    text: String,
)
    ensures
        call_ensures(FrameId::fits_legacy, (id,), yes) ==> (yes <==> id.0 <= 255),
        call_ensures(FrameId::carries_key_material, (id,), yes) ==> (yes <==> id.0 == 0x0068
            || id.0 == 0x0111 || id.0 == 0x0114 || id.0 == 0x0116),
        call_ensures(FrameId::name, (id,), name) ==> match name {
            Some(name) => id.known_name() == Some(name@),
            None => id.known_name() is None,
        },
        call_ensures(FrameId::to_string, (&id,), text) ==> text@ == id.text(),
{
}

/// A correlator starts with nothing, and tells what is outstanding.
pub proof fn correlators_tell_what_is_outstanding(
    correlator: Correlator,
    new: Correlator,
    number: u8,
    yes: bool,
    pending: Option<Pending>,
    count: u64,
    id: Option<FrameId>,
)
    ensures
        call_ensures(Correlator::new, (), new) ==> {
            &&& new@.pending is None
            &&& new@.next_sequence == 0
            &&& new@.stale_frames == 0
        },
        call_ensures(Correlator::peek_sequence, (&correlator,), number) ==> number
            == correlator@.next_sequence,
        call_ensures(Correlator::is_busy, (&correlator,), yes) ==> (yes <==> correlator@.pending
            is Some),
        call_ensures(Correlator::pending, (&correlator,), pending) ==> pending
            == correlator@.pending,
        call_ensures(Correlator::stale_frames, (&correlator,), count) ==> count
            == correlator@.stale_frames,
        call_ensures(Correlator::pending_frame_id, (&correlator,), id) ==> match correlator@.pending
        {
            Some(pending) => id == Some(pending.frame_id),
            None => id is None,
        },
{
}

/// Registering a command: it takes the next sequence number, unless one is
/// outstanding, which is named and stays.
pub proof fn correlators_register(
    correlator: &mut Correlator,
    frame_id: FrameId,
    res: Result<u8, EzspError>,
)
    requires
        call_ensures(Correlator::begin, (correlator, frame_id), res),
    ensures
        match old(correlator)@.pending {
            Some(pending) => {
                &&& res == Err::<u8, EzspError>(
                    EzspError::SequenceMismatch { sequence: pending.sequence },
                )
                &&& final(correlator)@ == old(correlator)@
            },
            None => {
                &&& res == Ok::<u8, EzspError>(old(correlator)@.next_sequence)
                &&& final(correlator)@.pending == Some(
                    Pending { sequence: old(correlator)@.next_sequence, frame_id },
                )
                &&& final(correlator)@.next_sequence == (old(correlator)@.next_sequence + 1) % 256
                &&& final(correlator)@.stale_frames == old(correlator)@.stale_frames
            },
        },
{
}

/// Classifying, timing out and resetting: the outcome names the command that
/// was lost, if one was.
pub proof fn correlators_settle(
    correlator: &mut Correlator,
    frame: Frame<'_>,
    found: Classified<'_>,
    res: Result<(), EzspError>,
)
    ensures
        call_ensures(Correlator::classify, (correlator, &frame), found) ==> {
            &&& found@ == old(correlator)@.classification(frame@)
            &&& final(correlator)@ == old(correlator)@.after_frame(frame@)
        },
        call_ensures(Correlator::time_out, (correlator,), res) ==> {
            &&& final(correlator)@.pending is None
            &&& final(correlator)@.next_sequence == old(correlator)@.next_sequence
            &&& final(correlator)@.stale_frames == old(correlator)@.stale_frames
            &&& match old(correlator)@.pending {
                Some(pending) => res == Err::<(), EzspError>(
                    EzspError::Timeout { frame_id: pending.frame_id },
                ),
                None => res is Ok,
            }
        },
        call_ensures(Correlator::on_ncp_reset, (correlator,), res) ==> {
            &&& final(correlator)@.pending is None
            &&& final(correlator)@.next_sequence == 0
            &&& final(correlator)@.stale_frames == old(correlator)@.stale_frames
            &&& match old(correlator)@.pending {
                Some(pending) => res == Err::<(), EzspError>(
                    EzspError::NcpReset { frame_id: pending.frame_id },
                ),
                None => res is Ok,
            }
        },
{
}

/// Callbacks decode to what their bytes say, exactly where their layout is all
/// there, and tell their id.
pub proof fn callbacks_are_decoded(
    frame_id: FrameId,
    bytes: &[u8],
    version: ProtocolVersion,
    res: Result<Callback, EzspError>,
    callback: Callback,
    id: FrameId,
)
    ensures
        call_ensures(Callback::decode, (frame_id, bytes, version), res) ==> {
            &&& res is Ok <==> Callback::layout(frame_id, bytes@, version) is Whole
            &&& match res {
                Ok(decoded) => decoded@ == Callback::at_start_of(frame_id, bytes@, version),
                Err(error) => Callback::layout(frame_id, bytes@, version).failure() == Some(error),
            }
        },
        call_ensures(Callback::frame_id, (&callback,), id) ==> id == callback@.id(),
{
}

/// A status is read at its width; zero alone is success, and anything else an
/// error that carries it.
pub proof fn statuses_answer(
    input: &mut Reader<'_>,
    read: Result<SlStatus, EzspError>,
    status: SlStatus,
    yes: bool,
    res: Result<(), EzspError>,
    text: String,
)
    ensures
        ({
            let bytes = old(input).rest();
            let width = status_len(old(input).target());
            call_ensures(SlStatus::decode, (input,), read) ==> {
                &&& final(input).target() == old(input).target()
                &&& if bytes.len() >= width {
                    &&& read matches Ok(status) && status.0 == status_number(
                        bytes,
                        0,
                        old(input).target(),
                    )
                    &&& final(input).rest() == bytes.skip(width as int)
                } else {
                    &&& read == Err::<SlStatus, EzspError>(
                        EzspError::TruncatedFrame {
                            needed: width as usize,
                            available: bytes.len() as usize,
                        },
                    )
                    &&& final(input).rest() == bytes
                }
            }
        }),
        call_ensures(SlStatus::is_ok, (status,), yes) ==> (yes <==> status.0 == 0),
        call_ensures(SlStatus::into_result, (status,), res) ==> res == if status.0 == 0 {
            Ok::<(), EzspError>(())
        } else {
            Err(EzspError::Status { status })
        },
        call_ensures(SlStatus::to_string, (&status,), text) ==> text@ == status.text(),
{
    let bytes = old(input).rest();
    statuses_are_their_numbers(bytes, 0, old(input).target());
    assert(bytes.skip(0) =~= bytes);
}

/// Addresses keep their number, in print order and on the wire.
pub proof fn addresses_answer(
    value: u64,
    eui64: Eui64,
    raw: u64,
    bytes: [u8; 8],
    node: NodeId,
    text: String,
)
    ensures
        call_ensures(Eui64::new, (value,), eui64) ==> eui64.0 == value,
        call_ensures(Eui64::raw, (eui64,), raw) ==> raw == eui64.0,
        call_ensures(Eui64::to_wire, (eui64,), bytes) ==> address(bytes@, 0) == eui64.0,
        call_ensures(Eui64::from_wire, (bytes,), eui64) ==> eui64.0 == address(bytes@, 0),
        call_ensures(Eui64::to_string, (&eui64,), text) ==> text@ == eui64.text(),
        call_ensures(NodeId::to_string, (&node,), text) ==> text@ == node.text(),
{
    numbers_go_out_little_endian(0, 0, eui64.0);
    numbers_are_read_little_endian(bytes@, 0);
}

/// Combining masks sets the bits of both, and containing is having them all.
pub proof fn masks_combine(
    a: ApsOptions,
    b: ApsOptions,
    c: ApsOptions,
    d: NetworkInitBitmask,
    e: NetworkInitBitmask,
    f: NetworkInitBitmask,
    g: Decision,
    h: Decision,
    i: Decision,
    j: InitialSecurityBitmask,
    k: InitialSecurityBitmask,
    l: InitialSecurityBitmask,
    yes: bool,
)
    ensures
        call_ensures(ApsOptions::union, (a, b), c) ==> c.0 == a.0 | b.0,
        call_ensures(NetworkInitBitmask::union, (d, e), f) ==> f.0 == d.0 | e.0,
        call_ensures(Decision::union, (g, h), i) ==> i.0 == g.0 | h.0,
        call_ensures(InitialSecurityBitmask::union, (j, k), l) ==> l.0 == j.0 | k.0,
        call_ensures(ApsOptions::contains, (a, b), yes) ==> (yes <==> a.0 & b.0 == b.0),
        call_ensures(InitialSecurityBitmask::contains, (j, k), yes) ==> (yes <==> j.0 & k.0
            == k.0),
        call_ensures(ApsOptions::unicast_defaults, (), c) ==> c.0 == 0x0140,
{
    assert(0x0040u16 | 0x0100u16 == 0x0140) by (bit_vector);
}

/// The ready-made values: a window that is never forever, a closed one, the
/// context of the network key, the well-known key, and the port's settings.
pub proof fn ready_made_values_are_as_documented(
    seconds: u8,
    joining: PermitJoining,
    context: SecurityManContext,
    key: SecurityKey,
    settings: SerialSettings,
    kind: UnicastType,
    number: u8,
)
    ensures
        call_ensures(PermitJoining::for_seconds, (seconds,), joining) ==> joining.duration
            == if seconds == 255 {
            254int
        } else {
            seconds as int
        },
        call_ensures(PermitJoining::close, (), joining) ==> joining.duration == 0,
        call_ensures(SecurityManContext::network_key, (), context) ==> {
            &&& context.core_key_type.0 == 1
            &&& context.key_index == 0
            &&& context.derived_type == 0
            &&& context.eui64.0 == 0
            &&& context.multi_network_index == 0
            &&& context.flags.0 == 0
            &&& context.psa_key_alg_permission == 0
        },
        call_ensures(SecurityKey::zigbee_alliance_09, (), key) ==> key@ == seq![
            0x5au8, 0x69, 0x67, 0x42, 0x65, 0x65, 0x41, 0x6c,
            0x6c, 0x69, 0x61, 0x6e, 0x63, 0x65, 0x30, 0x39,
        ],
        call_ensures(SerialSettings::default, (), settings) ==> settings.baud == 115200
            && !settings.rtscts,
        call_ensures(UnicastType::raw, (kind,), number) ==> number == kind.wire_value(),
{
}

/// Defaults are zero, or empty.
pub proof fn defaults_are_empty(
    options: ApsOptions,
    frame: ApsFrame,
    eui64: Eui64,
    node: NodeId,
    init: NetworkInitBitmask,
    decision: Decision,
    flags: SecurityManFlags,
    decoder: Decoder,
    connection: Connection,
    correlator: Correlator,
    transport: FakeTransport,
)
    ensures
        call_ensures(ApsOptions::default, (), options) ==> options.0 == 0,
        call_ensures(ApsFrame::default, (), frame) ==> {
            &&& frame.profile_id == 0
            &&& frame.cluster_id == 0
            &&& frame.source_endpoint == 0
            &&& frame.destination_endpoint == 0
            &&& frame.options.0 == 0
            &&& frame.group_id == 0
            &&& frame.sequence == 0
        },
        call_ensures(Eui64::default, (), eui64) ==> eui64.0 == 0,
        call_ensures(NodeId::default, (), node) ==> node.0 == 0,
        call_ensures(NetworkInitBitmask::default, (), init) ==> init.0 == 0,
        call_ensures(Decision::default, (), decision) ==> decision.0 == 0,
        call_ensures(SecurityManFlags::default, (), flags) ==> flags.0 == 0,
        call_ensures(Decoder::default, (), decoder) ==> decoder@ == DecoderModel::clean(),
        call_ensures(Connection::default, (), connection) ==> connection@.state
            == ConnectionState::Disconnected && connection@.in_flight.len() == 0
            && connection@.next_tx_frame == 0 && connection@.next_rx_frame == 0,
        call_ensures(Correlator::default, (), correlator) ==> correlator@.pending is None
            && correlator@.next_sequence == 0 && correlator@.stale_frames == 0,
        call_ensures(FakeTransport::default, (), transport) ==> transport@.to_read.len() == 0
            && transport@.written.len() == 0 && transport@.fail_next_read is None
            && !transport@.closed,
{
}

/// Numbers are appended to a text, and signed bytes turned both ways.
pub proof fn numbers_are_turned(
    out: &mut String,
    value: u64,
    width: u8,
    signed: i8,
    byte: u8,
)
    ensures
        call_ensures(push_decimal, (out, value), ()) ==> final(out)@ == old(out)@ + decimal(
            value as nat,
        ),
        call_ensures(push_hex_digits, (out, value, width), ()) ==> final(out)@ == old(out)@
            + hex_digits(value as nat, width as nat),
        call_ensures(push_hex, (out, value, width), ()) ==> final(out)@ == old(out)@ + hex(
            value as nat,
            width as nat,
        ),
        call_ensures(signed_byte, (signed,), byte) ==> byte == if signed < 0 {
            signed + 256
        } else {
            signed as int
        },
        call_ensures(from_signed_byte, (byte,), signed) ==> signed == if byte >= 128 {
            byte - 256
        } else {
            byte as int
        },
{
}

/// A key keeps its bytes and shows none of them.
pub proof fn keys_are_kept_and_not_shown(
    bytes: [u8; 16],
    key: SecurityKey,
    exposed: &[u8; 16],
    debug: &'static str,
    text: String,
)
    ensures
        call_ensures(SecurityKey::new, (bytes,), key) ==> key@ == bytes@,
        call_ensures(SecurityKey::expose, (&key,), exposed) ==> exposed@ == key@,
        call_ensures(SecurityKey::redacted, (&key,), debug) ==> debug@
            == "SecurityKey(redacted)"@,
        call_ensures(SecurityKey::to_string, (&key,), text) ==> text@ == "<redacted>"@,
{
}

/// Errors of the protocol and of the transport say whether a retry can help,
/// and their message; a link error becomes one of the protocol unchanged.
pub proof fn errors_answer(
    error: EzspError,
    link: AshError,
    failed: TransportError,
    yes: bool,
    text: String,
    mapped: EzspError,
)
    ensures
        call_ensures(EzspError::is_transient, (&error,), yes) ==> (yes <==> error is Timeout
            || error is NcpReset || error is Transport || error is Ash),
        call_ensures(EzspError::to_string, (&error,), text) ==> text@ == error.message(),
        call_ensures(TransportError::to_string, (&failed,), text) ==> text@ == failed.message(),
        call_ensures(map_transport, (&failed,), mapped) ==> (
        mapped matches EzspError::Transport { reason } && reason@ == failed.message()),
        call_ensures(<EzspError as From<AshError>>::from, (link,), mapped) ==> mapped
            == EzspError::Ash(link),
{
}

/// A scripted transport hands its chunks out in order and records what is
/// written, in order.
pub proof fn scripts_are_played(
    transport: &mut FakeTransport,
    chunk: Vec<u8>,
    chunks: Vec<Vec<u8>>,
    data: &[u8],
    error: TransportError,
    new: FakeTransport,
    res: Result<(), TransportError>,
)
    ensures
        call_ensures(FakeTransport::new, (), new) ==> new@.to_read.len() == 0
            && new@.written.len() == 0 && new@.fail_next_read is None && !new@.closed,
        call_ensures(FakeTransport::with_chunks, (chunks,), new) ==> new@.to_read == chunk_bytes(
            chunks@,
        ) && new@.written.len() == 0 && new@.fail_next_read is None && !new@.closed,
        ({
            let before = old(transport)@;
            let after = final(transport)@;
            &&& call_ensures(FakeTransport::push_chunk, (transport, chunk), ()) ==> {
                &&& after.to_read == before.to_read.push(chunk@)
                &&& after.written == before.written
                &&& after.fail_next_read == before.fail_next_read
                &&& after.closed == before.closed
            }
            &&& call_ensures(FakeTransport::fail_next_read, (transport, error), ()) ==> {
                &&& after.fail_next_read == Some(error)
                &&& after.to_read == before.to_read
                &&& after.written == before.written
                &&& after.closed == before.closed
            }
            &&& call_ensures(FakeTransport::close, (transport,), ()) ==> {
                &&& after.closed
                &&& after.to_read == before.to_read
                &&& after.written == before.written
                &&& after.fail_next_read == before.fail_next_read
            }
            &&& call_ensures(FakeTransport::write, (transport, data), res) ==> {
                &&& res is Ok
                &&& after.written == before.written + data@
                &&& after.to_read == before.to_read
                &&& after.fail_next_read == before.fail_next_read
                &&& after.closed == before.closed
            }
        }),
{
}

/// Reading a scripted transport: a scripted failure once and first, then the
/// chunks from the front, then that it is closed, or nothing yet.
pub proof fn scripts_are_read(
    transport: &mut FakeTransport,
    res: Option<Result<Vec<u8>, TransportError>>,
)
    requires
        call_ensures(FakeTransport::read, (transport,), res),
    ensures
        ({
            let before = old(transport)@;
            let after = final(transport)@;
            &&& after.written == before.written
            &&& after.closed == before.closed
            &&& after.fail_next_read is None
            &&& if before.fail_next_read is Some {
                &&& res matches Some(Err(error)) && before.fail_next_read == Some(error)
                &&& after.to_read == before.to_read
            } else if before.to_read.len() > 0 {
                &&& res matches Some(Ok(chunk)) && chunk@ == before.to_read[0]
                &&& after.to_read == before.to_read.skip(1)
            } else if before.closed {
                &&& res matches Some(Err(error)) && error is Closed
                &&& after.to_read == before.to_read
            } else {
                &&& res is None
                &&& after.to_read == before.to_read
            }
        }),
{
}

/// A scripted transport tells what was written and whether it is drained.
pub proof fn scripts_tell_their_state(transport: FakeTransport, slice: &[u8], yes: bool)
    ensures
        call_ensures(FakeTransport::written, (&transport,), slice) ==> slice@ == transport@.written,
        call_ensures(FakeTransport::is_drained, (&transport,), yes) ==> (yes
            <==> transport@.to_read.len() == 0),
{
}

} // verus!
