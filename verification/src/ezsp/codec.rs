//! Byte-level reading and writing, sans-I/O.
//!
//! Every byte read here arrived over a serial line from a device this crate
//! does not control, so the reader is written on the assumption that its input
//! is hostile: no read past the end, no arithmetic that can wrap, and a typed
//! error for every way a frame can be wrong.
//!
//! # Why not `std::io::Read` and `Write`
//!
//! They would work, and the temptation is real because the traits already
//! exist. Two reasons against:
//!
//! * `io::Error` cannot say *why* a frame was rejected. "Unexpected end of
//!   file" is not the same information as "a length byte claimed 40 more bytes
//!   than the frame contains", and the second is what a person debugging a new
//!   dongle needs.
//! * Encoding an EZSP field depends on the negotiated protocol version, so the
//!   codec has to carry it. Threading a version through `io::Write` means
//!   putting it somewhere else, and "somewhere else" is where it gets out of
//!   step with the frame being written.

use vstd::prelude::*;
use vstd::slice::slice_subrange;

use crate::ezsp::error::EzspError;
use crate::ezsp::version::ProtocolVersion;

verus! {

/// The little-endian `u16` at offset `at`.
pub open spec fn le16(bytes: Seq<u8>, at: int) -> u16 {
    (bytes[at] + 0x100 * bytes[at + 1]) as u16
}

/// The little-endian `u32` at offset `at`.
pub open spec fn le32(bytes: Seq<u8>, at: int) -> u32 {
    (bytes[at] + 0x100 * bytes[at + 1] + 0x1_0000 * bytes[at + 2] + 0x100_0000 * bytes[at
        + 3]) as u32
}

/// A `u16` as two bytes, least significant first.
pub open spec fn bytes16(value: u16) -> Seq<u8> {
    seq![(value % 0x100) as u8, (value / 0x100) as u8]
}

/// A `u32` as four bytes, least significant first.
pub open spec fn bytes32(value: u32) -> Seq<u8> {
    seq![
        (value % 0x100) as u8,
        ((value / 0x100) % 0x100) as u8,
        ((value / 0x1_0000) % 0x100) as u8,
        (value / 0x100_0000) as u8,
    ]
}

/// Two bytes written are two bytes read.
pub proof fn u16_round_trips(value: u16, behind: Seq<u8>)
    ensures
        le16(bytes16(value) + behind, 0) == value,
{
}

/// Four bytes written are four bytes read.
pub proof fn u32_round_trips(value: u32, behind: Seq<u8>)
    ensures
        le32(bytes32(value) + behind, 0) == value,
{
    let bytes = bytes32(value);
    assert(bytes[0] + 0x100 * bytes[1] + 0x1_0000 * bytes[2] + 0x100_0000 * bytes[3] == value);
}

/// The digits of a number in base 256 are its remainders and quotients.
proof fn base_256_digits(a: int, b: int, c: int, d: int)
    requires
        0 <= a < 0x100,
        0 <= b < 0x100,
        0 <= c < 0x100,
        0 <= d < 0x100,
    ensures
        ({
            let value = a + 0x100 * b + 0x1_0000 * c + 0x100_0000 * d;
            &&& value % 0x100 == a
            &&& (value / 0x100) % 0x100 == b
            &&& (value / 0x1_0000) % 0x100 == c
            &&& value / 0x100_0000 == d
        }),
{
    let value = a + 0x100 * b + 0x1_0000 * c + 0x100_0000 * d;
    assert(value / 0x100 == b + 0x100 * c + 0x1_0000 * d);
    assert(value / 0x1_0000 == c + 0x100 * d);
}

/// Four bytes read are the four bytes written for that value.
pub proof fn u32_is_its_bytes(bytes: Seq<u8>)
    requires
        bytes.len() == 4,
    ensures
        bytes32(le32(bytes, 0)) == bytes,
{
    base_256_digits(bytes[0] as int, bytes[1] as int, bytes[2] as int, bytes[3] as int);
    assert(bytes32(le32(bytes, 0)) =~= bytes);
}

/// Skipping in two steps is skipping once.
pub broadcast proof fn skips_add(bytes: Seq<u8>, first: int, second: int)
    requires
        0 <= first,
        0 <= second,
        first + second <= bytes.len(),
    ensures
        #[trigger] bytes.skip(first).skip(second) == bytes.skip(first + second),
{
    assert(bytes.skip(first).skip(second) =~= bytes.skip(first + second));
}

/// Skipping nothing changes nothing.
pub broadcast proof fn skips_nothing(bytes: Seq<u8>)
    ensures
        #[trigger] bytes.skip(0) == bytes,
{
    assert(bytes.skip(0) =~= bytes);
}

/// How far a decoder gets in the bytes it is given.
pub enum Extent {
    /// All its fields are there, and take this many bytes.
    Whole(nat),
    /// It consumes this many bytes and then fails.
    Fails { consumed: nat, error: EzspError },
}

impl Extent {
    /// How many bytes are consumed, on success or failure.
    pub open spec fn consumed(self) -> nat {
        match self {
            Extent::Whole(width) => width,
            Extent::Fails { consumed, .. } => consumed,
        }
    }

    /// The same extent for bytes that stand `offset` further in.
    pub open spec fn shifted(self, offset: nat) -> Extent {
        match self {
            Extent::Whole(width) => Extent::Whole(offset + width),
            Extent::Fails { consumed, error } => Extent::Fails {
                consumed: offset + consumed,
                error,
            },
        }
    }

    /// This extent where it fails, and `behind` where it does not.
    pub open spec fn and_then(self, behind: Extent) -> Extent {
        match self {
            Extent::Whole(_) => behind,
            Extent::Fails { .. } => self,
        }
    }

    /// Why decoding fails, if it does.
    pub open spec fn failure(self) -> Option<EzspError> {
        match self {
            Extent::Whole(_) => None,
            Extent::Fails { error, .. } => Some(error),
        }
    }

    /// Whether a decoder that went this far can have turned `before` into
    /// `after` and returned `res`.
    pub open spec fn describes<T>(
        self,
        before: Reader<'_>,
        after: Reader<'_>,
        res: Result<T, EzspError>,
    ) -> bool {
        &&& self.consumed() <= before.rest().len()
        &&& after.rest() == before.rest().skip(self.consumed() as int)
        &&& match res {
            Ok(_) => self is Whole,
            Err(error) => self matches Extent::Fails { error: expected, .. } && error == expected,
        }
    }
}

/// The error for a field of `needed` bytes where only `available` are left.
pub open spec fn truncated(needed: nat, available: nat) -> EzspError {
    EzspError::TruncatedFrame { needed: needed as usize, available: available as usize }
}

/// One field of a layout: it starts at `offset` and takes `width` of the
/// `available` bytes, and `behind` says how the layout goes on where it fits.
pub open spec fn field(available: nat, offset: nat, width: nat, behind: Extent) -> Extent {
    if available < offset + width {
        Extent::Fails { consumed: offset, error: truncated(width, (available - offset) as nat) }
    } else {
        behind
    }
}

/// The last field of a layout: a length byte at `offset`, then that many
/// bytes. Where they are not all there, the length byte is not consumed
/// either.
pub open spec fn prefixed_field(bytes: Seq<u8>, offset: nat) -> Extent {
    let length = bytes[offset as int] as nat;
    field(
        bytes.len(),
        offset,
        1,
        if bytes.len() < offset + 1 + length {
            Extent::Fails {
                consumed: offset,
                error: truncated(length, (bytes.len() - offset - 1) as nat),
            }
        } else {
            Extent::Whole(offset + 1 + length)
        },
    )
}

/// What a length-prefixed field at `offset` holds.
pub open spec fn prefixed_at(bytes: Seq<u8>, offset: int) -> Seq<u8> {
    bytes.subrange(offset + 1, offset + 1 + bytes[offset])
}

/// A cursor over a frame's bytes.
#[derive(Debug, Clone)]
pub struct Reader<'a> {
    /// What is left to read.
    bytes: &'a [u8],
    version: ProtocolVersion,
}

impl<'a> Reader<'a> {
    /// The bytes not yet read.
    pub closed spec fn rest(&self) -> Seq<u8> {
        self.bytes@
    }

    /// The protocol version this frame is being decoded for.
    pub closed spec fn target(&self) -> ProtocolVersion {
        self.version
    }

    /// A reader over `bytes`, decoding for `version`.
    pub fn new(bytes: &'a [u8], version: ProtocolVersion) -> (res: Self)
        ensures
            res.rest() == bytes@,
            res.target() == version,
    {
        Reader { bytes, version }
    }

    /// The protocol version this frame is being decoded for.
    ///
    /// Available to every decoder because field widths depend on it: a status
    /// is one byte below EZSP 14 and four bytes at or above it.
    pub fn version(&self) -> (res: ProtocolVersion)
        ensures
            res == self.target(),
    {
        self.version
    }

    /// How many bytes are left.
    pub fn remaining(&self) -> (res: usize)
        ensures
            res == self.rest().len(),
    {
        self.bytes.len()
    }

    /// Whether everything has been consumed.
    pub fn is_empty(&self) -> (res: bool)
        ensures
            res == (self.rest().len() == 0),
    {
        self.remaining() == 0
    }

    /// The bytes not yet read, without consuming them.
    pub fn peek_rest(&self) -> (res: &'a [u8])
        ensures
            res@ == self.rest(),
    {
        self.bytes
    }

    /// Takes `n` bytes.
    ///
    /// # Errors
    ///
    /// [`EzspError::TruncatedFrame`] when fewer are left. Nothing is consumed
    /// then.
    pub fn take(&mut self, n: usize) -> (res: Result<&'a [u8], EzspError>)
        ensures
            final(self).target() == old(self).target(),
            field(old(self).rest().len(), 0, n as nat, Extent::Whole(n as nat)).describes(
                *old(self),
                *final(self),
                res,
            ),
            res matches Ok(bytes) ==> bytes@ == old(self).rest().take(n as int),
    {
        proof {
            assert(self.rest().skip(0) =~= self.rest());
        }
        if n > self.bytes.len() {
            return Err(EzspError::TruncatedFrame { needed: n, available: self.bytes.len() });
        }
        let taken: &'a [u8] = slice_subrange(self.bytes, 0, n);
        self.bytes = slice_subrange(self.bytes, n, self.bytes.len());
        proof {
            assert(taken@ =~= old(self).rest().take(n as int));
            assert(self.rest() =~= old(self).rest().skip(n as int));
        }
        Ok(taken)
    }

    /// Takes everything left.
    pub fn take_rest(&mut self) -> (res: &'a [u8])
        ensures
            res@ == old(self).rest(),
            final(self).rest() == Seq::<u8>::empty(),
            final(self).target() == old(self).target(),
    {
        let rest: &'a [u8] = self.bytes;
        self.bytes = slice_subrange(self.bytes, self.bytes.len(), self.bytes.len());
        proof {
            assert(self.rest() =~= Seq::<u8>::empty());
        }
        rest
    }

    /// One byte.
    ///
    /// # Errors
    ///
    /// [`EzspError::TruncatedFrame`] when nothing is left.
    pub fn u8(&mut self) -> (res: Result<u8, EzspError>)
        ensures
            final(self).target() == old(self).target(),
            field(old(self).rest().len(), 0, 1, Extent::Whole(1)).describes(
                *old(self),
                *final(self),
                res,
            ),
            res matches Ok(value) ==> value == old(self).rest()[0],
    {
        match self.take(1) {
            Ok(bytes) => Ok(bytes[0]),
            Err(error) => Err(error),
        }
    }

    /// A little-endian `u16`. EZSP is little-endian throughout.
    ///
    /// # Errors
    ///
    /// [`EzspError::TruncatedFrame`] when fewer than two bytes are left.
    pub fn u16(&mut self) -> (res: Result<u16, EzspError>)
        ensures
            final(self).target() == old(self).target(),
            field(old(self).rest().len(), 0, 2, Extent::Whole(2)).describes(
                *old(self),
                *final(self),
                res,
            ),
            res matches Ok(value) ==> value == le16(old(self).rest(), 0),
    {
        match self.take(2) {
            Ok(bytes) => Ok(bytes[0] as u16 + 0x100 * (bytes[1] as u16)),
            Err(error) => Err(error),
        }
    }

    /// A little-endian `u32`.
    ///
    /// # Errors
    ///
    /// [`EzspError::TruncatedFrame`] when fewer than four bytes are left.
    pub fn u32(&mut self) -> (res: Result<u32, EzspError>)
        ensures
            final(self).target() == old(self).target(),
            field(old(self).rest().len(), 0, 4, Extent::Whole(4)).describes(
                *old(self),
                *final(self),
                res,
            ),
            res matches Ok(value) ==> value == le32(old(self).rest(), 0),
    {
        match self.take(4) {
            Ok(bytes) => Ok(
                bytes[0] as u32 + 0x100 * (bytes[1] as u32) + 0x1_0000 * (bytes[2] as u32)
                    + 0x100_0000 * (bytes[3] as u32),
            ),
            Err(error) => Err(error),
        }
    }

    /// A fixed-size array.
    ///
    /// # Errors
    ///
    /// [`EzspError::TruncatedFrame`] when fewer than `N` bytes are left.
    pub fn array<const N: usize>(&mut self) -> (res: Result<[u8; N], EzspError>)
        ensures
            final(self).target() == old(self).target(),
            field(old(self).rest().len(), 0, N as nat, Extent::Whole(N as nat)).describes(
                *old(self),
                *final(self),
                res,
            ),
            res matches Ok(value) ==> value@ == old(self).rest().take(N as int),
    {
        match self.take(N) {
            Ok(bytes) => {
                let mut out: [u8; N] = [0u8; N];
                let mut i: usize = 0;
                while i < N
                    invariant
                        i <= N,
                        bytes@.len() == N,
                        forall|j: int| 0 <= j < i ==> out@[j] == bytes@[j],
                    decreases N - i,
                {
                    out[i] = bytes[i];
                    i += 1;
                }
                proof {
                    assert(out@ =~= bytes@);
                }
                Ok(out)
            },
            Err(error) => Err(error),
        }
    }

    /// A `u8` length followed by that many bytes.
    ///
    /// The shape most likely to be malformed, deliberately or otherwise: the
    /// length comes from the frame and is not to be trusted.
    ///
    /// # Errors
    ///
    /// [`EzspError::TruncatedFrame`] when there is no length byte, or fewer
    /// bytes behind it than it claims. Nothing is consumed then, not even the
    /// length.
    pub fn length_prefixed(&mut self) -> (res: Result<&'a [u8], EzspError>)
        ensures
            final(self).target() == old(self).target(),
            prefixed_field(old(self).rest(), 0).describes(*old(self), *final(self), res),
            res matches Ok(bytes) ==> bytes@ == prefixed_at(old(self).rest(), 0),
    {
        let ghost before = self.rest();
        proof {
            assert(before.skip(0) =~= before);
        }
        if self.bytes.len() == 0 {
            return Err(EzspError::TruncatedFrame { needed: 1, available: 0 });
        }
        let length: usize = self.bytes[0] as usize;
        let available: usize = self.bytes.len() - 1;
        if length > available {
            return Err(EzspError::TruncatedFrame { needed: length, available });
        }
        let taken: &'a [u8] = slice_subrange(self.bytes, 1, 1 + length);
        self.bytes = slice_subrange(self.bytes, 1 + length, self.bytes.len());
        proof {
            assert(taken@ =~= prefixed_at(before, 0));
            assert(self.rest() =~= before.skip(1 + length));
        }
        Ok(taken)
    }
}

/// A growable buffer for building a frame.
#[derive(Debug, Clone)]
pub struct Writer {
    bytes: Vec<u8>,
    version: ProtocolVersion,
}

impl View for Writer {
    type V = Seq<u8>;

    closed spec fn view(&self) -> Seq<u8> {
        self.bytes@
    }
}

impl Writer {
    /// The protocol version being encoded for.
    pub closed spec fn target(&self) -> ProtocolVersion {
        self.version
    }

    /// A writer that encodes for `version`.
    pub fn new(version: ProtocolVersion) -> (res: Self)
        ensures
            res@ == Seq::<u8>::empty(),
            res.target() == version,
    {
        Writer { bytes: Vec::new(), version }
    }

    /// The protocol version being encoded for.
    pub fn version(&self) -> (res: ProtocolVersion)
        ensures
            res == self.target(),
    {
        self.version
    }

    /// How much has been written.
    pub fn len(&self) -> (res: usize)
        ensures
            res == self@.len(),
    {
        self.bytes.len()
    }

    /// Whether nothing has been written.
    pub fn is_empty(&self) -> (res: bool)
        ensures
            res == (self@.len() == 0),
    {
        self.bytes.len() == 0
    }

    /// One byte.
    pub fn u8(&mut self, value: u8)
        ensures
            final(self)@ == old(self)@ + seq![value],
            final(self).target() == old(self).target(),
    {
        self.bytes.push(value);
        proof {
            assert(self@ =~= old(self)@ + seq![value]);
        }
    }

    /// A little-endian `u16`.
    pub fn u16(&mut self, value: u16)
        ensures
            final(self)@ == old(self)@ + bytes16(value),
            final(self).target() == old(self).target(),
    {
        self.bytes.push((value % 0x100) as u8);
        self.bytes.push((value / 0x100) as u8);
        proof {
            assert(self@ =~= old(self)@ + bytes16(value));
        }
    }

    /// A little-endian `u32`.
    pub fn u32(&mut self, value: u32)
        ensures
            final(self)@ == old(self)@ + bytes32(value),
            final(self).target() == old(self).target(),
    {
        self.bytes.push((value % 0x100) as u8);
        self.bytes.push(((value / 0x100) % 0x100) as u8);
        self.bytes.push(((value / 0x1_0000) % 0x100) as u8);
        self.bytes.push((value / 0x100_0000) as u8);
        proof {
            assert(self@ =~= old(self)@ + bytes32(value));
        }
    }

    /// Raw bytes, with no length prefix.
    pub fn bytes(&mut self, value: &[u8])
        ensures
            final(self)@ == old(self)@ + value@,
            final(self).target() == old(self).target(),
    {
        self.bytes.extend_from_slice(value);
        proof {
            assert(self@ =~= old(self)@ + value@);
        }
    }

    /// A `u8` length followed by the bytes.
    ///
    /// # Errors
    ///
    /// [`EzspError::PayloadTooLong`] if the slice cannot be described by a
    /// single length byte. Truncating instead would send a frame the NCP reads
    /// as valid and shorter than intended, which is worse than refusing.
    pub fn length_prefixed(&mut self, value: &[u8]) -> (res: Result<(), EzspError>)
        ensures
            final(self)@ == old(self)@ + prefixed_bytes(value@),
            final(self).target() == old(self).target(),
            match res {
                Ok(()) => prefixed_failure(value@) is None,
                Err(error) => prefixed_failure(value@) == Some(error),
            },
    {
        if value.len() > 255 {
            proof {
                assert(self@ =~= old(self)@ + prefixed_bytes(value@));
            }
            return Err(EzspError::PayloadTooLong { length: value.len(), limit: 255 });
        }
        self.u8(value.len() as u8);
        self.bytes(value);
        proof {
            assert(self@ =~= old(self)@ + prefixed_bytes(value@));
        }
        Ok(())
    }

    /// The finished bytes.
    pub fn into_vec(self) -> (res: Vec<u8>)
        ensures
            res@ == self@,
    {
        self.bytes
    }

    /// The bytes written so far.
    pub fn as_slice(&self) -> (res: &[u8])
        ensures
            res@ == self@,
    {
        self.bytes.as_slice()
    }
}

/// Why a payload cannot be described by a length byte, if it cannot.
pub open spec fn prefixed_failure(value: Seq<u8>) -> Option<EzspError> {
    if value.len() > 255 {
        Some(EzspError::PayloadTooLong { length: value.len() as usize, limit: 255 })
    } else {
        None
    }
}

/// A length byte and a payload; nothing, where the length does not fit.
pub open spec fn prefixed_bytes(value: Seq<u8>) -> Seq<u8> {
    if value.len() > 255 {
        seq![]
    } else {
        seq![value.len() as u8] + value
    }
}

/// A payload written behind its length is read back whole, and what follows it
/// is left alone.
pub proof fn prefixed_payload_round_trips(value: Seq<u8>, behind: Seq<u8>)
    requires
        value.len() <= 255,
    ensures
        prefixed_field(prefixed_bytes(value) + behind, 0) == Extent::Whole(value.len() + 1),
        prefixed_at(prefixed_bytes(value) + behind, 0) == value,
{
    assert(prefixed_at(prefixed_bytes(value) + behind, 0) =~= value);
}

/// Something that can be written into an EZSP frame.
///
/// A type says of itself what it writes, by `encoding` and `encode_failure`;
/// of one that does not, nothing is known.
///
/// The version is a parameter rather than crate state because it changes what
/// the bytes are. `sendUnicast`'s message tag is one byte below EZSP 14 and two
/// at or above it, so a type that encoded itself without knowing the version
/// could only ever be right for one of them.
pub trait EzspEncode {
    /// The bytes that are appended, also where encoding then fails.
    closed spec fn encoding(&self, version: ProtocolVersion) -> Seq<u8> {
        arbitrary()
    }

    /// Why the value cannot be encoded, if it cannot.
    closed spec fn encode_failure(&self, version: ProtocolVersion) -> Option<EzspError> {
        arbitrary()
    }

    /// Appends this value's bytes.
    ///
    /// # Errors
    ///
    /// As the value's own rules say, such as [`EzspError::PayloadTooLong`].
    fn encode(&self, out: &mut Writer) -> (res: Result<(), EzspError>)
        ensures
            final(out)@ == old(out)@ + self.encoding(old(out).target()),
            final(out).target() == old(out).target(),
            match res {
                Ok(()) => self.encode_failure(old(out).target()) is None,
                Err(error) => self.encode_failure(old(out).target()) == Some(error),
            },
    ;
}

/// Something that can be read out of an EZSP frame.
///
/// A type says of itself how it is read, by `extent` and `read_from`; of one
/// that does not, nothing is known.
pub trait EzspDecode: Sized {
    /// How far decoding gets in `bytes`.
    closed spec fn extent(bytes: Seq<u8>, version: ProtocolVersion) -> Extent {
        arbitrary()
    }

    /// Whether this is the value that `bytes` begin with.
    closed spec fn read_from(self, bytes: Seq<u8>, version: ProtocolVersion) -> bool {
        arbitrary()
    }

    /// Reads one value, consuming exactly its bytes.
    ///
    /// # Errors
    ///
    /// [`EzspError::TruncatedFrame`] where a field is not there.
    fn decode(input: &mut Reader<'_>) -> (res: Result<Self, EzspError>)
        ensures
            final(input).target() == old(input).target(),
            Self::extent(old(input).rest(), old(input).target()).describes(
                *old(input),
                *final(input),
                res,
            ),
            res matches Ok(value) ==> value.read_from(old(input).rest(), old(input).target()),
    ;
}

impl EzspEncode for u8 {
    open spec fn encoding(&self, version: ProtocolVersion) -> Seq<u8> {
        seq![*self]
    }

    open spec fn encode_failure(&self, version: ProtocolVersion) -> Option<EzspError> {
        None
    }

    fn encode(&self, out: &mut Writer) -> (res: Result<(), EzspError>) {
        out.u8(*self);
        Ok(())
    }
}

impl EzspDecode for u8 {
    open spec fn extent(bytes: Seq<u8>, version: ProtocolVersion) -> Extent {
        field(bytes.len(), 0, 1, Extent::Whole(1))
    }

    open spec fn read_from(self, bytes: Seq<u8>, version: ProtocolVersion) -> bool {
        self == bytes[0]
    }

    fn decode(input: &mut Reader<'_>) -> (res: Result<Self, EzspError>) {
        input.u8()
    }
}

impl EzspEncode for u16 {
    open spec fn encoding(&self, version: ProtocolVersion) -> Seq<u8> {
        bytes16(*self)
    }

    open spec fn encode_failure(&self, version: ProtocolVersion) -> Option<EzspError> {
        None
    }

    fn encode(&self, out: &mut Writer) -> (res: Result<(), EzspError>) {
        out.u16(*self);
        Ok(())
    }
}

impl EzspDecode for u16 {
    open spec fn extent(bytes: Seq<u8>, version: ProtocolVersion) -> Extent {
        field(bytes.len(), 0, 2, Extent::Whole(2))
    }

    open spec fn read_from(self, bytes: Seq<u8>, version: ProtocolVersion) -> bool {
        self == le16(bytes, 0)
    }

    fn decode(input: &mut Reader<'_>) -> (res: Result<Self, EzspError>) {
        input.u16()
    }
}

impl EzspEncode for () {
    open spec fn encoding(&self, version: ProtocolVersion) -> Seq<u8> {
        seq![]
    }

    open spec fn encode_failure(&self, version: ProtocolVersion) -> Option<EzspError> {
        None
    }

    fn encode(&self, out: &mut Writer) -> (res: Result<(), EzspError>) {
        proof {
            assert(out@ =~= out@ + seq![]);
        }
        Ok(())
    }
}

impl EzspDecode for () {
    open spec fn extent(bytes: Seq<u8>, version: ProtocolVersion) -> Extent {
        Extent::Whole(0)
    }

    open spec fn read_from(self, bytes: Seq<u8>, version: ProtocolVersion) -> bool {
        true
    }

    fn decode(input: &mut Reader<'_>) -> (res: Result<Self, EzspError>) {
        proof {
            assert(input.rest().skip(0) =~= input.rest());
        }
        Ok(())
    }
}

} // verus!
