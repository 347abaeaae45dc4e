//! Numbers as bytes, and reading them back.

use vstd::prelude::*;

use crate::ezsp::codec::{
    bytes16, bytes32, field, le16, le32, prefixed_at, prefixed_bytes, prefixed_failure,
    prefixed_field, truncated, Extent, EzspDecode, EzspEncode, Reader,
};
use crate::ezsp::error::EzspError;
use crate::ezsp::version::ProtocolVersion;
use crate::types::network::{byte_to_signed, bytes64, le64, signed_to_byte};

verus! {

/// Two bytes as a number, the first the least significant.
pub open spec fn word(bytes: Seq<u8>, at: int) -> int {
    bytes[at] + 256 * bytes[at + 1]
}

/// Four bytes as a number, the first the least significant.
pub open spec fn long(bytes: Seq<u8>, at: int) -> int {
    word(bytes, at) + 65536 * word(bytes, at + 2)
}

/// Eight bytes as a number, the first the least significant.
pub open spec fn address(bytes: Seq<u8>, at: int) -> int {
    long(bytes, at) + 4294967296 * long(bytes, at + 4)
}

/// Whether decoding stops short inside a field: where the bytes end in a field
/// that starts at `offset` and takes `width`, everything before it is consumed
/// and the error says how much it needed and what was left.
pub open spec fn cut_inside(extent: Extent, available: nat, offset: nat, width: nat) -> bool {
    offset <= available < offset + width ==> extent == (Extent::Fails {
        consumed: offset,
        error: EzspError::TruncatedFrame {
            needed: width as usize,
            available: (available - offset) as usize,
        },
    })
}

/// Numbers go out least significant byte first, in as many bytes as they have.
pub proof fn numbers_go_out_little_endian(small: u16, large: u32, huge: u64)
    ensures
        bytes16(small).len() == 2,
        word(bytes16(small), 0) == small,
        bytes32(large).len() == 4,
        long(bytes32(large), 0) == large,
        bytes64(huge).len() == 8,
        address(bytes64(huge), 0) == huge,
{
    let low = (huge % 0x1_0000_0000) as u32;
    let high = (huge / 0x1_0000_0000) as u32;
    bytes_of_a_long(large);
    bytes_of_a_long(low);
    bytes_of_a_long(high);
    assert(long(bytes64(huge), 0) == long(bytes32(low), 0));
    assert(long(bytes64(huge), 4) == long(bytes32(high), 0));
}

proof fn bytes_of_a_long(value: u32)
    ensures
        long(bytes32(value), 0) == value,
{
    let bytes = bytes32(value);
    assert(bytes[0] == value % 256 && bytes[1] == (value / 256) % 256 && bytes[2] == (value
        / 65536) % 256 && bytes[3] == value / 16777216);
    assert(value / 65536 == 256 * (value / 16777216) + (value / 65536) % 256);
    assert(value / 256 == 256 * (value / 65536) + (value / 256) % 256);
}

/// Numbers are read least significant byte first.
pub proof fn numbers_are_read_little_endian(bytes: Seq<u8>, at: int)
    ensures
        le16(bytes, at) == word(bytes, at),
        le32(bytes, at) == long(bytes, at),
        le64(bytes, at) == address(bytes, at),
{
}

/// A signed byte is its number where that is not negative, and 256 more where
/// it is; reading it back gives the number.
pub proof fn signed_bytes_are_twos_complement(value: i8, byte: u8)
    ensures
        value >= 0 ==> signed_to_byte(value) == value,
        value < 0 ==> signed_to_byte(value) == 256 + value,
        byte < 128 ==> byte_to_signed(byte) == byte,
        byte >= 128 ==> byte_to_signed(byte) == byte - 256,
{
}

/// A field that fits lets the layout go on; one that does not ends it at its
/// own start, saying what was needed and what was left.
pub proof fn fields_end_where_the_bytes_do(
    available: nat,
    offset: nat,
    width: nat,
    behind: Extent,
)
    requires
        offset <= available,
    ensures
        available >= offset + width ==> field(available, offset, width, behind) == behind,
        cut_inside(field(available, offset, width, behind), available, offset, width),
        truncated(width, available) == (EzspError::TruncatedFrame {
            needed: width as usize,
            available: available as usize,
        }),
{
}

/// What an extent says of a decoder: with all fields there it succeeds and has
/// passed exactly those bytes; else it reports the error and has passed what
/// came before.
pub proof fn extents_say_what_is_consumed(
    before: Reader<'_>,
    after: Reader<'_>,
    res: Result<u8, EzspError>,
    width: nat,
    error: EzspError,
)
    ensures
        Extent::Whole(width).describes(before, after, res) ==> res is Ok && width
            <= before.rest().len() && after.rest() == before.rest().skip(width as int),
        (Extent::Fails { consumed: width, error }).describes(before, after, res) ==> res == Err::<
            u8,
            EzspError,
        >(error) && width <= before.rest().len() && after.rest() == before.rest().skip(
            width as int,
        ),
        Extent::Whole(width).consumed() == width,
        (Extent::Fails { consumed: width, error }).consumed() == width,
        Extent::Whole(width).failure() is None,
        (Extent::Fails { consumed: width, error }).failure() == Some(error),
{
}

/// Layouts one behind the other: the second counts from where it stands, and
/// matters only where the first is there.
pub proof fn layouts_follow_each_other(
    width: nat,
    offset: nat,
    error: EzspError,
    behind: Extent,
)
    ensures
        Extent::Whole(width).shifted(offset) == Extent::Whole(offset + width),
        (Extent::Fails { consumed: width, error }).shifted(offset) == (Extent::Fails {
            consumed: offset + width,
            error,
        }),
        Extent::Whole(width).and_then(behind) == behind,
        (Extent::Fails { consumed: width, error }).and_then(behind) == (Extent::Fails {
            consumed: width,
            error,
        }),
{
}

/// A payload is written as its length and itself, where one byte can hold the
/// length; else nothing is written and the error says the length and the limit.
pub proof fn payloads_are_written_behind_their_length(value: Seq<u8>)
    ensures
        value.len() <= 255 ==> {
            &&& prefixed_failure(value) is None
            &&& prefixed_bytes(value).len() == value.len() + 1
            &&& prefixed_bytes(value)[0] == value.len()
            &&& prefixed_bytes(value).skip(1) == value
        },
        value.len() > 255 ==> {
            &&& prefixed_failure(value) == Some(
                EzspError::PayloadTooLong { length: value.len() as usize, limit: 255 },
            )
            &&& prefixed_bytes(value) == Seq::<u8>::empty()
        },
{
    assert(value.len() <= 255 ==> prefixed_bytes(value).skip(1) =~= value);
}

/// A payload behind its length is read whole at any offset; one that the bytes
/// cut short is refused with its length unread.
pub proof fn payloads_are_read_behind_their_length(
    before: Seq<u8>,
    length: u8,
    present: Seq<u8>,
)
    ensures
        ({
            let bytes = before.push(length) + present;
            let extent = prefixed_field(bytes, before.len());
            if present.len() >= length {
                &&& extent == Extent::Whole(before.len() + 1 + length as nat)
                &&& prefixed_at(bytes, before.len() as int) == present.take(length as int)
            } else {
                extent == (Extent::Fails {
                    consumed: before.len(),
                    error: EzspError::TruncatedFrame {
                        needed: length as usize,
                        available: present.len() as usize,
                    },
                })
            }
        }),
        prefixed_field(before, before.len()) == (Extent::Fails {
            consumed: before.len(),
            error: EzspError::TruncatedFrame { needed: 1, available: 0 },
        }),
{
    let bytes = before.push(length) + present;
    if present.len() >= length {
        assert(prefixed_at(bytes, before.len() as int) =~= present.take(length as int));
    }
}

/// The plain numbers as values of a frame.
pub proof fn plain_numbers_are_their_bytes(
    byte: u8,
    number: u16,
    bytes: Seq<u8>,
    version: ProtocolVersion,
)
    ensures
        byte.encoding(version) == seq![byte],
        byte.encode_failure(version) is None,
        number.encoding(version).len() == 2,
        word(number.encoding(version), 0) == number,
        number.encode_failure(version) is None,
        ().encoding(version) == Seq::<u8>::empty(),
        ().encode_failure(version) is None,
        bytes.len() >= 1 ==> u8::extent(bytes, version) == Extent::Whole(1),
        cut_inside(u8::extent(bytes, version), bytes.len(), 0, 1),
        byte.read_from(bytes, version) <==> byte == bytes[0],
        bytes.len() >= 2 ==> u16::extent(bytes, version) == Extent::Whole(2),
        cut_inside(u16::extent(bytes, version), bytes.len(), 0, 2),
        number.read_from(bytes, version) <==> number == word(bytes, 0),
        <() as EzspDecode>::extent(bytes, version) == Extent::Whole(0),
{
    numbers_go_out_little_endian(number, 0, 0);
}

} // verus!
