//! Turning ASH frames into bytes and back, sans-I/O.
//!
//! Four transformations sit between a frame and the wire, and all four have to
//! be applied in the right order or nothing works:
//!
//! ```text
//! encode:  frame -> randomise data -> append CRC -> byte-stuff -> FLAG
//! decode:  FLAG-delimited -> unstuff -> verify CRC -> de-randomise data
//! ```
//!
//! The randomisation is the step most easily missed, because a frame without it
//! is still well-formed: correct CRC, correct length, and a payload the NCP
//! reads as garbage. It exists so a payload full of one repeated reserved byte
//! does not double in size through escaping.

use vstd::prelude::*;
use vstd::slice::{slice_subrange, slice_to_vec};

use crate::ash::error::AshError;
use crate::ash::frame::{parts_round_trip, AshFrame, FrameModel, MAX_DATA_FIELD_LEN};

verus! {

/// Frame delimiter.
pub const FLAG: u8 = 0x7e;

/// Escape prefix for a reserved byte.
pub const ESCAPE: u8 = 0x7d;

/// The NCP is abandoning the frame in progress.
pub const CANCEL: u8 = 0x1a;

/// The frame in progress was corrupted in transit.
pub const SUBSTITUTE: u8 = 0x18;

/// Flow control, ignored when the port uses RTS/CTS.
pub const XON: u8 = 0x11;

/// Flow control, ignored when the port uses RTS/CTS.
pub const XOFF: u8 = 0x13;

/// `XORed` into an escaped byte.
pub const FLIP: u8 = 0x20;

/// Seed for the data-randomising LFSR.
pub const LFSR_SEED: u8 = 0x42;

/// Feedback polynomial for the data-randomising LFSR.
pub const LFSR_POLY: u8 = 0xb8;

/// The largest complete frame, control and CRC included, before stuffing.
pub const MAX_FRAME_WITH_CRC: usize = 133;

/// The shortest: a control byte and a CRC.
pub const MIN_FRAME_WITH_CRC: usize = 3;

/// The bytes with a meaning of their own on the line.
pub open spec fn reserved(byte: u8) -> bool {
    byte == FLAG || byte == ESCAPE || byte == XON || byte == XOFF || byte == SUBSTITUTE || byte
        == CANCEL
}

/// Whether a byte must be escaped when sent.
pub fn is_reserved(byte: u8) -> (res: bool)
    ensures
        res == reserved(byte),
{
    matches!(byte, FLAG | ESCAPE | XON | XOFF | SUBSTITUTE | CANCEL)
}

/// The CRC register after `bits` more zero bits have been shifted through it.
pub open spec fn crc_shifted(register: u16, bits: nat) -> u16
    decreases bits,
{
    if bits == 0 {
        register
    } else {
        let before = crc_shifted(register, (bits - 1) as nat);
        if before & 0x8000 == 0 {
            before << 1
        } else {
            (before << 1) ^ 0x1021
        }
    }
}

/// The CRC register after one more byte, most significant bit first.
pub open spec fn crc_step(register: u16, byte: u8) -> u16 {
    crc_shifted(register ^ ((byte as u16) << 8), 8)
}

/// The CRC-16/CCITT-FALSE of a byte string.
pub open spec fn crc_of(bytes: Seq<u8>) -> u16
    decreases bytes.len(),
{
    if bytes.len() == 0 {
        0xffff
    } else {
        crc_step(crc_of(bytes.drop_last()), bytes.last())
    }
}

/// CRC-16/CCITT-FALSE: poly `0x1021`, initial value `0xffff`, no reflection.
///
/// Written as the plain bitwise algorithm rather than a table, because this
/// version can be checked against the published test vector for the algorithm.
pub fn crc16(seed: u16, byte: u8) -> (res: u16)
    ensures
        res == crc_step(seed, byte),
{
    let start: u16 = seed ^ ((byte as u16) << 8);
    let mut crc: u16 = start;
    let mut bit: u8 = 0;
    while bit < 8
        invariant
            bit <= 8,
            crc == crc_shifted(start, bit as nat),
        decreases 8 - bit,
    {
        crc = if crc & 0x8000 == 0 {
            crc << 1
        } else {
            (crc << 1) ^ 0x1021
        };
        bit += 1;
    }
    crc
}

/// The CRC over a whole byte string.
pub fn crc16_all(bytes: &[u8]) -> (res: u16)
    ensures
        res == crc_of(bytes@),
{
    let mut crc: u16 = 0xffff;
    let mut i: usize = 0;
    while i < bytes.len()
        invariant
            i <= bytes@.len(),
            crc == crc_of(bytes@.take(i as int)),
        decreases bytes@.len() - i,
    {
        crc = crc16(crc, bytes[i]);
        proof {
            assert(bytes@.take(i + 1).drop_last() =~= bytes@.take(i as int));
        }
        i += 1;
    }
    proof {
        assert(bytes@.take(i as int) =~= bytes@);
    }
    crc
}

/// The shift register that drives the pseudo-random sequence, one step on.
pub open spec fn lfsr_step(seed: u8) -> u8 {
    if seed & 1 == 0 {
        seed >> 1
    } else {
        (seed >> 1) ^ LFSR_POLY
    }
}

/// Byte `index` of the ASH pseudo-random sequence.
pub open spec fn lfsr(index: nat) -> u8
    decreases index,
{
    if index == 0 {
        LFSR_SEED
    } else {
        lfsr_step(lfsr((index - 1) as nat))
    }
}

/// A data field with the pseudo-random sequence XORed in, byte by byte.
pub open spec fn randomised(data: Seq<u8>) -> Seq<u8> {
    Seq::new(data.len(), |i: int| data[i] ^ lfsr(i as nat))
}

/// XORs a data field with the ASH pseudo-random sequence.
///
/// Its own inverse, so the same function serves both directions.
pub fn randomise(data: &mut [u8])
    ensures
        final(data)@ == randomised(old(data)@),
{
    let mut seed: u8 = LFSR_SEED;
    let mut i: usize = 0;
    while i < data.len()
        invariant
            i <= data@.len(),
            data@.len() == old(data)@.len(),
            seed == lfsr(i as nat),
            forall|j: int| 0 <= j < i ==> data@[j] == old(data)@[j] ^ lfsr(j as nat),
            forall|j: int| i <= j < data@.len() ==> data@[j] == old(data)@[j],
        decreases data@.len() - i,
    {
        data[i] = data[i] ^ seed;
        seed = if seed & 1 == 0 {
            seed >> 1
        } else {
            (seed >> 1) ^ LFSR_POLY
        };
        i += 1;
    }
    proof {
        assert(data@ =~= randomised(old(data)@));
    }
}

/// Randomising twice gives back what one started from.
pub proof fn randomising_is_its_own_inverse(data: Seq<u8>)
    ensures
        randomised(randomised(data)) == data,
{
    assert forall|i: int| 0 <= i < data.len() implies #[trigger] randomised(randomised(data))[i]
        == data[i] by {
        let byte = data[i];
        let mask = lfsr(i as nat);
        assert((byte ^ mask) ^ mask == byte) by (bit_vector);
    }
    assert(randomised(randomised(data)) =~= data);
}

/// What the CRC covers: the control byte and the body as it goes on the wire.
pub open spec fn covered(frame: FrameModel) -> Seq<u8> {
    seq![frame.control()] + if frame is Data {
        randomised(frame.body())
    } else {
        frame.body()
    }
}

/// A CRC as two bytes, high byte first.
pub open spec fn crc_bytes(crc: u16) -> Seq<u8> {
    seq![(crc / 256) as u8, (crc % 256) as u8]
}

/// A frame with its CRC, before stuffing.
pub open spec fn with_crc(frame: FrameModel) -> Seq<u8> {
    covered(frame) + crc_bytes(crc_of(covered(frame)))
}

/// One byte as it is sent: a reserved one is escaped.
pub open spec fn stuffed_byte(byte: u8) -> Seq<u8> {
    if reserved(byte) {
        seq![ESCAPE, byte ^ FLIP]
    } else {
        seq![byte]
    }
}

/// A byte string as it is sent, every reserved byte escaped.
pub open spec fn stuffed(bytes: Seq<u8>) -> Seq<u8>
    decreases bytes.len(),
{
    if bytes.len() == 0 {
        seq![]
    } else {
        stuffed(bytes.drop_last()) + stuffed_byte(bytes.last())
    }
}

/// A frame as it goes on the wire.
pub open spec fn wire(frame: FrameModel) -> Seq<u8> {
    stuffed(with_crc(frame)).push(FLAG)
}

/// The length of a frame with its CRC, before stuffing.
pub open spec fn length_with_crc(frame: FrameModel) -> nat {
    frame.body().len() + 3
}

/// Why a frame is not sent, if it is not: its data field exceeds what ASH
/// permits. Where the whole frame is past its own limit too, that is reported.
pub open spec fn encode_refusal(frame: FrameModel) -> Option<AshError> {
    if length_with_crc(frame) > MAX_FRAME_WITH_CRC {
        Some(
            AshError::TooLong {
                length: length_with_crc(frame) as usize,
                maximum: MAX_FRAME_WITH_CRC,
            },
        )
    } else if frame.body().len() > MAX_DATA_FIELD_LEN {
        Some(
            AshError::TooLong {
                length: frame.body().len() as usize,
                maximum: MAX_DATA_FIELD_LEN,
            },
        )
    } else {
        None
    }
}

/// Encodes one frame, ready to write to the port.
///
/// # Errors
///
/// [`AshError::TooLong`] if the frame's data field exceeds what ASH permits.
pub fn encode(frame: &AshFrame) -> (res: Result<Vec<u8>, AshError>)
    ensures
        res is Err <==> frame@ is Data && frame@.body().len() > MAX_DATA_FIELD_LEN,
        match res {
            Ok(bytes) => encode_refusal(frame@) is None && bytes@ == wire(frame@),
            Err(error) => encode_refusal(frame@) == Some(error),
        },
{
    let mut unstuffed: Vec<u8> = Vec::with_capacity(MAX_FRAME_WITH_CRC);
    unstuffed.push(frame.control());
    // Randomised before the CRC, because the CRC covers what goes on the wire.
    let mut body: Vec<u8> = frame.body();
    if matches!(frame, AshFrame::Data { .. }) {
        randomise(body.as_mut_slice());
    }
    unstuffed.extend_from_slice(body.as_slice());
    proof {
        assert(unstuffed@ =~= covered(frame@));
    }
    let crc: u16 = crc16_all(unstuffed.as_slice());
    // High byte first: ASH sends the CRC big-endian even though every other
    // multi-byte field in EZSP is little-endian.
    unstuffed.push((crc / 256) as u8);
    unstuffed.push((crc % 256) as u8);
    proof {
        assert(unstuffed@ =~= with_crc(frame@));
    }
    if unstuffed.len() > MAX_FRAME_WITH_CRC {
        return Err(AshError::TooLong { length: unstuffed.len(), maximum: MAX_FRAME_WITH_CRC });
    }
    if body.len() > MAX_DATA_FIELD_LEN {
        return Err(AshError::TooLong { length: body.len(), maximum: MAX_DATA_FIELD_LEN });
    }
    let mut out: Vec<u8> = Vec::with_capacity(unstuffed.len() + 8);
    let mut i: usize = 0;
    while i < unstuffed.len()
        invariant
            i <= unstuffed@.len(),
            unstuffed@ == with_crc(frame@),
            out@ == stuffed(unstuffed@.take(i as int)),
        decreases unstuffed@.len() - i,
    {
        let byte: u8 = unstuffed[i];
        let ghost before = out@;
        if is_reserved(byte) {
            out.push(ESCAPE);
            out.push(byte ^ FLIP);
        } else {
            out.push(byte);
        }
        proof {
            assert(out@ =~= before + stuffed_byte(byte));
            assert(unstuffed@.take(i + 1).drop_last() =~= unstuffed@.take(i as int));
        }
        i += 1;
    }
    proof {
        assert(unstuffed@.take(i as int) =~= unstuffed@);
    }
    out.push(FLAG);
    Ok(out)
}

/// What the decoder produced from a chunk of bytes.
#[derive(Debug, Clone, PartialEq, Eq)]
pub enum Decoded {
    /// A complete, verified frame.
    Frame(AshFrame),
    /// A frame arrived and was rejected. The reason says whether to NAK.
    Rejected(AshError),
}

/// What the decoder produced, over mathematical frames.
pub enum DecodedModel {
    /// A complete, verified frame.
    Frame(FrameModel),
    /// A frame arrived and was rejected.
    Rejected(AshError),
}

impl View for Decoded {
    type V = DecodedModel;

    open spec fn view(&self) -> DecodedModel {
        match *self {
            Decoded::Frame(frame) => DecodedModel::Frame(frame@),
            Decoded::Rejected(error) => DecodedModel::Rejected(error),
        }
    }
}

/// A list of what the decoder produced, over mathematical frames.
pub open spec fn decoded_models(list: Seq<Decoded>) -> Seq<DecodedModel> {
    Seq::new(list.len(), |i: int| list[i]@)
}

/// What the decoder remembers between two bytes.
pub struct DecoderModel {
    /// Bytes of the frame in progress, unstuffed.
    pub partial: Seq<u8>,
    /// The previous byte was an escape.
    pub escaped: bool,
    /// Why the frame in progress is already known to be unusable.
    pub dropping: Option<AshError>,
}

/// What a delimiter completes: nothing where nothing was buffered, else a
/// verified frame or the reason it is refused.
pub open spec fn completed(bytes: Seq<u8>) -> Option<DecodedModel> {
    let split = bytes.len() - 2;
    let covered = bytes.take(split);
    let carried = (256 * bytes[split] + bytes[split + 1]) as u16;
    if bytes.len() == 0 {
        None
    } else if bytes.len() < MIN_FRAME_WITH_CRC {
        Some(
            DecodedModel::Rejected(
                AshError::TooShort { length: bytes.len() as usize, minimum: MIN_FRAME_WITH_CRC },
            ),
        )
    } else if crc_of(covered) != carried {
        Some(DecodedModel::Rejected(AshError::BadCrc { computed: crc_of(covered), carried }))
    } else {
        let control = covered[0];
        let body = if control < 0x80 { randomised(covered.skip(1)) } else { covered.skip(1) };
        match FrameModel::from_parts(control, body) {
            Ok(frame) => Some(DecodedModel::Frame(frame)),
            Err(error) => Some(DecodedModel::Rejected(error)),
        }
    }
}

impl DecoderModel {
    /// Nothing buffered.
    pub open spec fn clean() -> DecoderModel {
        DecoderModel { partial: seq![], escaped: false, dropping: None }
    }

    /// The state after one byte.
    pub open spec fn after(self, byte: u8) -> DecoderModel {
        if byte == XON || byte == XOFF {
            self
        } else if byte == CANCEL || byte == FLAG {
            DecoderModel::clean()
        } else if byte == SUBSTITUTE {
            DecoderModel { dropping: Some(AshError::Substituted), ..self }
        } else if byte == ESCAPE {
            DecoderModel { escaped: true, ..self }
        } else if self.partial.len() >= MAX_FRAME_WITH_CRC {
            DecoderModel {
                escaped: false,
                dropping: Some(
                    AshError::TooLong {
                        length: (MAX_FRAME_WITH_CRC + 1) as usize,
                        maximum: MAX_FRAME_WITH_CRC,
                    },
                ),
                ..self
            }
        } else {
            DecoderModel {
                partial: self.partial.push(if self.escaped { byte ^ FLIP } else { byte }),
                escaped: false,
                ..self
            }
        }
    }

    /// What one byte completes: only a delimiter completes anything.
    pub open spec fn yields(self, byte: u8) -> Option<DecodedModel> {
        if byte != FLAG {
            None
        } else {
            match self.dropping {
                Some(error) => Some(DecodedModel::Rejected(error)),
                None => completed(self.partial),
            }
        }
    }

    /// The state after a run of bytes.
    pub open spec fn after_all(self, bytes: Seq<u8>) -> DecoderModel
        decreases bytes.len(),
    {
        if bytes.len() == 0 {
            self
        } else {
            self.after_all(bytes.drop_last()).after(bytes.last())
        }
    }

    /// What a run of bytes completes, in order.
    pub open spec fn yields_all(self, bytes: Seq<u8>) -> Seq<DecodedModel>
        decreases bytes.len(),
    {
        if bytes.len() == 0 {
            seq![]
        } else {
            let earlier = self.yields_all(bytes.drop_last());
            match self.after_all(bytes.drop_last()).yields(bytes.last()) {
                Some(decoded) => earlier.push(decoded),
                None => earlier,
            }
        }
    }
}

/// Reassembles frames from a byte stream.
///
/// Incremental because a serial read returns whatever happened to be in the
/// buffer: half a frame, three frames, or one byte. The decoder holds the
/// partial frame between calls and never assumes a read boundary is a frame
/// boundary.
#[derive(Debug)]
pub struct Decoder {
    /// Bytes of the frame in progress, unstuffed.
    partial: Vec<u8>,
    /// Set when the previous byte was an escape.
    escaped: bool,
    /// Set when the frame in progress is already known to be unusable.
    ///
    /// Kept separate from discarding the bytes so the frame is still consumed
    /// up to its delimiter -- otherwise its remainder is read as the start of
    /// the next one, and a single corrupt frame desynchronises the stream.
    dropping: Option<AshError>,
}

impl View for Decoder {
    type V = DecoderModel;

    closed spec fn view(&self) -> DecoderModel {
        DecoderModel {
            partial: self.partial@,
            escaped: self.escaped,
            dropping: self.dropping,
        }
    }
}

impl Default for Decoder {
    fn default() -> (res: Self)
        ensures
            res.wf(),
            res@ == DecoderModel::clean(),
    {
        let res = Decoder { partial: Vec::new(), escaped: false, dropping: None };
        proof {
            assert(res@.partial =~= DecoderModel::clean().partial);
        }
        res
    }
}

impl Decoder {
    /// The buffer never outgrows the longest frame, whatever arrives.
    pub open spec fn wf(&self) -> bool {
        self@.partial.len() <= MAX_FRAME_WITH_CRC
    }

    /// A decoder with nothing buffered.
    pub fn new() -> (res: Self)
        ensures
            res.wf(),
            res@ == DecoderModel::clean(),
    {
        Decoder::default()
    }

    /// Discards any partial frame.
    ///
    /// Used after a reset, where anything buffered belongs to the connection
    /// that just went away.
    pub fn reset(&mut self)
        ensures
            final(self).wf(),
            final(self)@ == DecoderModel::clean(),
    {
        self.partial.clear();
        self.escaped = false;
        self.dropping = None;
        proof {
            assert(self@.partial =~= DecoderModel::clean().partial);
        }
    }

    /// Feeds bytes in, and returns whatever completed.
    ///
    /// Never fails as a whole: a bad frame is one `Decoded::Rejected` in the
    /// returned list, and the frames around it still decode. One corrupt frame
    /// must not cost the ones that arrived in the same read.
    pub fn feed(&mut self, bytes: &[u8]) -> (res: Vec<Decoded>)
        requires
            old(self).wf(),
        ensures
            final(self).wf(),
            final(self)@ == old(self)@.after_all(bytes@),
            decoded_models(res@) == old(self)@.yields_all(bytes@),
    {
        let mut out: Vec<Decoded> = Vec::new();
        let mut i: usize = 0;
        proof {
            assert(decoded_models(out@) =~= seq![]);
        }
        while i < bytes.len()
            invariant
                i <= bytes@.len(),
                self.wf(),
                self@ == old(self)@.after_all(bytes@.take(i as int)),
                decoded_models(out@) == old(self)@.yields_all(bytes@.take(i as int)),
            decreases bytes@.len() - i,
        {
            proof {
                assert(bytes@.take(i + 1).drop_last() =~= bytes@.take(i as int));
            }
            let ghost before = out@;
            if let Some(decoded) = self.push(bytes[i]) {
                out.push(decoded);
                proof {
                    assert(decoded_models(out@) =~= decoded_models(before).push(decoded@));
                }
            }
            i += 1;
        }
        proof {
            assert(bytes@.take(i as int) =~= bytes@);
        }
        out
    }

    /// Handles one byte.
    fn push(&mut self, byte: u8) -> (res: Option<Decoded>)
        requires
            old(self).wf(),
        ensures
            final(self).wf(),
            final(self)@ == old(self)@.after(byte),
            match res {
                Some(decoded) => old(self)@.yields(byte) == Some(decoded@),
                None => old(self)@.yields(byte) is None,
            },
    {
        match byte {
            // Flow control from the NCP. Ignored: the port uses RTS/CTS, and
            // acting on these would stall a link that is not blocked.
            XON | XOFF => None,
            CANCEL => {
                // Normal during startup, when the NCP abandons partial output
                // as it resets. The frame in progress is gone, not corrupt.
                self.reset();
                None
            },
            SUBSTITUTE => {
                // The frame is known bad, but must still be consumed to its
                // delimiter or its tail becomes the next frame's head.
                self.dropping = Some(AshError::Substituted);
                None
            },
            ESCAPE => {
                self.escaped = true;
                None
            },
            FLAG => {
                let result = self.finish();
                self.reset();
                result
            },
            _ => {
                let plain: u8 = if self.escaped {
                    self.escaped = false;
                    byte ^ FLIP
                } else {
                    byte
                };
                // Bounded: a stream with no delimiter must not grow a buffer
                // without limit. Marked and consumed rather than truncated.
                if self.partial.len() >= MAX_FRAME_WITH_CRC {
                    self.dropping = Some(
                        AshError::TooLong {
                            length: self.partial.len() + 1,
                            maximum: MAX_FRAME_WITH_CRC,
                        },
                    );
                    return None;
                }
                self.partial.push(plain);
                None
            },
        }
    }

    /// Completes the frame at a delimiter.
    fn finish(&mut self) -> (res: Option<Decoded>)
        requires
            old(self).wf(),
        ensures
            *final(self) == *old(self),
            match res {
                Some(decoded) => old(self)@.yields(FLAG) == Some(decoded@),
                None => old(self)@.yields(FLAG) is None,
            },
    {
        if let Some(error) = self.dropping {
            return Some(Decoded::Rejected(error));
        }
        // Two flags in a row, or a flag after a cancel. Not an error: the NCP
        // sends a flag to delimit, and an empty gap between two is nothing.

        if self.partial.len() == 0 {
            return None;
        }
        if self.partial.len() < MIN_FRAME_WITH_CRC {
            return Some(
                Decoded::Rejected(
                    AshError::TooShort {
                        length: self.partial.len(),
                        minimum: MIN_FRAME_WITH_CRC,
                    },
                ),
            );
        }
        let split: usize = self.partial.len() - 2;
        let covered: &[u8] = slice_subrange(self.partial.as_slice(), 0, split);
        let carried: u16 = 256 * (self.partial[split] as u16) + self.partial[split + 1] as u16;
        let computed: u16 = crc16_all(covered);
        proof {
            assert(covered@ =~= self.partial@.take(split as int));
        }
        if computed != carried {
            return Some(Decoded::Rejected(AshError::BadCrc { computed, carried }));
        }
        let control: u8 = covered[0];
        let mut body: Vec<u8> = slice_to_vec(slice_subrange(covered, 1, covered.len()));
        proof {
            assert(body@ =~= covered@.skip(1));
            assert(control & 0x80 == 0 <==> control < 0x80) by (bit_vector);
        }
        // De-randomised only for data frames, and only after the CRC has been
        // verified over the bytes as they arrived.
        if control & 0x80 == 0 {
            randomise(body.as_mut_slice());
        }
        match AshFrame::from_parts(control, body.as_slice()) {
            Ok(frame) => Some(Decoded::Frame(frame)),
            Err(error) => Some(Decoded::Rejected(error)),
        }
    }
}

/// Feeding two runs of bytes one after the other, in whatever reads they came,
/// leaves the decoder in the same state and yields the same frames as feeding
/// both at once.
pub proof fn read_boundaries_do_not_matter(decoder: DecoderModel, first: Seq<u8>, second: Seq<u8>)
    ensures
        decoder.after_all(first + second) == decoder.after_all(first).after_all(second),
        decoder.yields_all(first + second) == decoder.yields_all(first) + decoder.after_all(
            first,
        ).yields_all(second),
    decreases second.len(),
{
    let whole = first + second;
    if second.len() == 0 {
        assert(whole =~= first);
        assert(decoder.yields_all(first) + Seq::<DecodedModel>::empty() =~= decoder.yields_all(
            first,
        ));
    } else {
        read_boundaries_do_not_matter(decoder, first, second.drop_last());
        assert(whole.drop_last() =~= first + second.drop_last());
        assert(decoder.yields_all(whole) =~= decoder.yields_all(first) + decoder.after_all(
            first,
        ).yields_all(second));
    }
}

/// One byte on its own, as a run of one.
proof fn run_of_one(decoder: DecoderModel, byte: u8)
    ensures
        decoder.after_all(seq![byte]) == decoder.after(byte),
        decoder.yields_all(seq![byte]) == match decoder.yields(byte) {
            Some(decoded) => seq![decoded],
            None => seq![],
        },
{
    let run = seq![byte];
    assert(run.drop_last() =~= seq![]);
    assert(decoder.after_all(run.drop_last()) == decoder);
    assert(decoder.yields_all(run.drop_last()) =~= seq![]);
    assert(run.last() == byte);
    assert(decoder.yields_all(run) =~= match decoder.yields(byte) {
        Some(decoded) => seq![decoded],
        None => seq![],
    });
}

/// Flipping an escaped byte twice restores it, and a flipped reserved byte is
/// no longer reserved.
proof fn flipping_escapes(byte: u8)
    ensures
        (byte ^ FLIP) ^ FLIP == byte,
        reserved(byte) ==> !reserved(byte ^ FLIP),
{
    assert((byte ^ 0x20) ^ 0x20 == byte) by (bit_vector);
    assert(0x7eu8 ^ 0x20 == 0x5e && 0x7du8 ^ 0x20 == 0x5d && 0x11u8 ^ 0x20 == 0x31 && 0x13u8 ^ 0x20
        == 0x33 && 0x18u8 ^ 0x20 == 0x38 && 0x1au8 ^ 0x20 == 0x3a) by (bit_vector);
}

/// Stuffing leaves no reserved byte on the line but the escapes it puts there.
pub proof fn stuffing_leaves_only_escapes(bytes: Seq<u8>)
    ensures
        forall|i: int|
            0 <= i < stuffed(bytes).len() ==> #[trigger] stuffed(bytes)[i] == ESCAPE || !reserved(
                stuffed(bytes)[i],
            ),
    decreases bytes.len(),
{
    if bytes.len() > 0 {
        let head = stuffed(bytes.drop_last());
        let tail = stuffed_byte(bytes.last());
        stuffing_leaves_only_escapes(bytes.drop_last());
        flipping_escapes(bytes.last());
        assert forall|i: int| 0 <= i < stuffed(bytes).len() implies #[trigger] stuffed(bytes)[i]
            == ESCAPE || !reserved(stuffed(bytes)[i]) by {
            if i < head.len() {
                assert(stuffed(bytes)[i] == head[i]);
            } else {
                assert(stuffed(bytes)[i] == tail[i - head.len()]);
            }
        }
    }
}

/// A frame on the wire holds one delimiter, its last byte.
pub proof fn wire_ends_with_its_only_delimiter(frame: FrameModel)
    ensures
        wire(frame).last() == FLAG,
        forall|i: int| 0 <= i < wire(frame).len() - 1 ==> #[trigger] wire(frame)[i] != FLAG,
{
    stuffing_leaves_only_escapes(with_crc(frame));
}

/// Bytes that were stuffed arrive unstuffed in the buffer, and complete
/// nothing on the way.
proof fn unstuffing_restores(decoder: DecoderModel, bytes: Seq<u8>)
    requires
        !decoder.escaped,
        decoder.partial.len() + bytes.len() <= MAX_FRAME_WITH_CRC,
    ensures
        decoder.after_all(stuffed(bytes)) == (DecoderModel {
            partial: decoder.partial + bytes,
            ..decoder
        }),
        decoder.yields_all(stuffed(bytes)) == Seq::<DecodedModel>::empty(),
    decreases bytes.len(),
{
    if bytes.len() == 0 {
        assert(decoder.partial + bytes =~= decoder.partial);
    } else {
        let head = bytes.drop_last();
        let byte = bytes.last();
        unstuffing_restores(decoder, head);
        flipping_escapes(byte);
        let middle = decoder.after_all(stuffed(head));
        read_boundaries_do_not_matter(decoder, stuffed(head), stuffed_byte(byte));
        if reserved(byte) {
            let escape = seq![ESCAPE];
            let flipped = seq![byte ^ FLIP];
            assert(stuffed_byte(byte) =~= escape + flipped);
            read_boundaries_do_not_matter(middle, escape, flipped);
            run_of_one(middle, ESCAPE);
            run_of_one(middle.after(ESCAPE), byte ^ FLIP);
        } else {
            run_of_one(middle, byte);
        }
        assert((decoder.partial + head).push(byte) =~= decoder.partial + bytes);
        assert(decoder.yields_all(stuffed(bytes)) =~= seq![]);
    }
}

/// A complete frame with its CRC is recognised as the frame it is.
proof fn completed_restores(frame: FrameModel)
    requires
        frame.body().len() <= MAX_DATA_FIELD_LEN,
    ensures
        completed(with_crc(frame)) == Some(DecodedModel::Frame(frame.reduced())),
{
    let bytes = with_crc(frame);
    let split = bytes.len() - 2;
    let crc = crc_of(covered(frame));
    assert(bytes.take(split) =~= covered(frame));
    assert(256 * bytes[split] + bytes[split + 1] == crc);
    assert(covered(frame).skip(1) =~= if frame is Data {
        randomised(frame.body())
    } else {
        frame.body()
    });
    assert(frame is Data <==> frame.control() < 0x80);
    randomising_is_its_own_inverse(frame.body());
    parts_round_trip(frame);
}

/// What was encoded decodes: a decoder between frames that is fed a frame's
/// wire form yields that frame, its numbers reduced to three bits, and nothing
/// else, and is between frames again.
pub proof fn encoded_frames_decode(frame: FrameModel)
    requires
        encode_refusal(frame) is None,
    ensures
        DecoderModel::clean().yields_all(wire(frame)) == seq![
            DecodedModel::Frame(frame.reduced()),
        ],
        DecoderModel::clean().after_all(wire(frame)) == DecoderModel::clean(),
{
    let clean = DecoderModel::clean();
    let bytes = with_crc(frame);
    unstuffing_restores(clean, bytes);
    assert(clean.partial + bytes =~= bytes);
    completed_restores(frame);
    let flag = seq![FLAG];
    assert(wire(frame) =~= stuffed(bytes) + flag);
    read_boundaries_do_not_matter(clean, stuffed(bytes), flag);
    run_of_one(clean.after_all(stuffed(bytes)), FLAG);
    assert(clean.yields_all(wire(frame)) =~= seq![DecodedModel::Frame(frame.reduced())]);
}

/// The wire forms of several frames, one after the other.
pub open spec fn wires(frames: Seq<FrameModel>) -> Seq<u8>
    decreases frames.len(),
{
    if frames.len() == 0 {
        seq![]
    } else {
        wires(frames.drop_last()) + wire(frames.last())
    }
}

/// Several frames in one read all decode, in order.
pub proof fn frames_in_one_read_all_decode(frames: Seq<FrameModel>)
    requires
        forall|i: int|
            0 <= i < frames.len() ==> encode_refusal(#[trigger] frames[i]) is None,
    ensures
        DecoderModel::clean().yields_all(wires(frames)) == Seq::new(
            frames.len(),
            |i: int| DecodedModel::Frame(frames[i].reduced()),
        ),
        DecoderModel::clean().after_all(wires(frames)) == DecoderModel::clean(),
    decreases frames.len(),
{
    let clean = DecoderModel::clean();
    if frames.len() > 0 {
        let head = frames.drop_last();
        frames_in_one_read_all_decode(head);
        encoded_frames_decode(frames.last());
        read_boundaries_do_not_matter(clean, wires(head), wire(frames.last()));
    }
    assert(clean.yields_all(wires(frames)) =~= Seq::new(
        frames.len(),
        |i: int| DecodedModel::Frame(frames[i].reduced()),
    ));
}

/// Whatever came before a delimiter, however corrupt, the decoder is between
/// frames after it, so the next frame decodes.
pub proof fn a_delimiter_resynchronises(decoder: DecoderModel, noise: Seq<u8>, frame: FrameModel)
    requires
        encode_refusal(frame) is None,
    ensures
        decoder.after_all(noise.push(FLAG)) == DecoderModel::clean(),
        decoder.yields_all(noise.push(FLAG) + wire(frame)) == decoder.yields_all(
            noise.push(FLAG),
        ).push(DecodedModel::Frame(frame.reduced())),
{
    let ended = noise.push(FLAG);
    assert(ended.drop_last() =~= noise);
    encoded_frames_decode(frame);
    read_boundaries_do_not_matter(decoder, ended, wire(frame));
    assert(decoder.yields_all(ended + wire(frame)) =~= decoder.yields_all(ended).push(
        DecodedModel::Frame(frame.reduced()),
    ));
}

/// A cancel discards the partial frame without reporting anything, and the
/// next frame decodes.
pub proof fn a_cancel_discards_silently(decoder: DecoderModel, noise: Seq<u8>, frame: FrameModel)
    requires
        encode_refusal(frame) is None,
    ensures
        decoder.after_all(noise.push(CANCEL)) == DecoderModel::clean(),
        decoder.yields_all(noise.push(CANCEL) + wire(frame)) == decoder.yields_all(noise).push(
            DecodedModel::Frame(frame.reduced()),
        ),
{
    let ended = noise.push(CANCEL);
    assert(ended.drop_last() =~= noise);
    encoded_frames_decode(frame);
    read_boundaries_do_not_matter(decoder, ended, wire(frame));
    assert(decoder.yields_all(ended + wire(frame)) =~= decoder.yields_all(noise).push(
        DecodedModel::Frame(frame.reduced()),
    ));
}

/// A flow-control byte changes nothing wherever it lands.
pub proof fn flow_control_is_ignored(
    decoder: DecoderModel,
    before: Seq<u8>,
    byte: u8,
    behind: Seq<u8>,
)
    requires
        byte == XON || byte == XOFF,
    ensures
        decoder.after_all(before.push(byte) + behind) == decoder.after_all(before + behind),
        decoder.yields_all(before.push(byte) + behind) == decoder.yields_all(before + behind),
{
    assert(before.push(byte).drop_last() =~= before);
    read_boundaries_do_not_matter(decoder, before.push(byte), behind);
    read_boundaries_do_not_matter(decoder, before, behind);
}

/// A frame known to be unusable stays so up to its delimiter, which reports it
/// once and delivers nothing of it.
pub proof fn a_dropped_frame_is_reported_and_never_delivered(
    decoder: DecoderModel,
    rest: Seq<u8>,
)
    requires
        decoder.dropping is Some,
        forall|i: int| 0 <= i < rest.len() ==> rest[i] != FLAG && rest[i] != CANCEL,
    ensures
        decoder.after_all(rest).dropping is Some,
        decoder.yields_all(rest.push(FLAG)) == seq![
            DecodedModel::Rejected(decoder.after_all(rest).dropping->0),
        ],
    decreases rest.len(),
{
    assert(rest.push(FLAG).drop_last() =~= rest);
    dropping_persists(decoder, rest);
}

proof fn dropping_persists(decoder: DecoderModel, rest: Seq<u8>)
    requires
        decoder.dropping is Some,
        forall|i: int| 0 <= i < rest.len() ==> rest[i] != FLAG && rest[i] != CANCEL,
    ensures
        decoder.after_all(rest).dropping is Some,
        decoder.yields_all(rest) == Seq::<DecodedModel>::empty(),
    decreases rest.len(),
{
    if rest.len() > 0 {
        dropping_persists(decoder, rest.drop_last());
    }
}

/// The buffer stays within the longest frame, whatever arrives.
pub proof fn the_buffer_stays_bounded(decoder: DecoderModel, bytes: Seq<u8>)
    requires
        decoder.partial.len() <= MAX_FRAME_WITH_CRC,
    ensures
        decoder.after_all(bytes).partial.len() <= MAX_FRAME_WITH_CRC,
    decreases bytes.len(),
{
    if bytes.len() > 0 {
        the_buffer_stays_bounded(decoder, bytes.drop_last());
    }
}

/// Every frame a decoder delivers is one that the wire can carry: its numbers
/// fit in three bits and its data field within the limit.
pub proof fn delivered_frames_are_well_formed(decoder: DecoderModel, byte: u8)
    ensures
        decoder.yields(byte) matches Some(DecodedModel::Frame(frame)) ==> frame.reduced() == frame
            && frame.body().len() <= MAX_DATA_FIELD_LEN,
{
}

/// Whether the next data byte is to be flipped: the last byte that is neither
/// flow control nor a substitute is an escape.
pub open spec fn escape_pending(bytes: Seq<u8>) -> bool
    decreases bytes.len(),
{
    if bytes.len() == 0 {
        false
    } else if bytes.last() == XON || bytes.last() == XOFF || bytes.last() == SUBSTITUTE {
        escape_pending(bytes.drop_last())
    } else {
        bytes.last() == ESCAPE
    }
}

/// The data bytes of a run without delimiter or cancel, escapes undone: flow
/// control, substitutes and the escapes themselves are no data.
pub open spec fn unstuffed(bytes: Seq<u8>) -> Seq<u8>
    decreases bytes.len(),
{
    if bytes.len() == 0 {
        seq![]
    } else {
        let before = unstuffed(bytes.drop_last());
        if reserved(bytes.last()) {
            before
        } else if escape_pending(bytes.drop_last()) {
            before.push(bytes.last() ^ FLIP)
        } else {
            before.push(bytes.last())
        }
    }
}

/// Whether a run counts as corrupted in transit: a substitute came, and no
/// data byte past the longest frame after it.
pub open spec fn substituted(bytes: Seq<u8>) -> bool
    decreases bytes.len(),
{
    if bytes.len() == 0 {
        false
    } else if bytes.last() == SUBSTITUTE {
        true
    } else if !reserved(bytes.last()) && unstuffed(bytes.drop_last()).len() >= MAX_FRAME_WITH_CRC {
        false
    } else {
        substituted(bytes.drop_last())
    }
}

/// What a delimiter yields after a run of bytes: the frame that they make up,
/// or the first reason that there is none.
pub open spec fn delimited(bytes: Seq<u8>) -> Option<DecodedModel> {
    let data = unstuffed(bytes);
    let split = data.len() - 2;
    let covered = data.take(split);
    let carried = (256 * data[split] + data[split + 1]) as u16;
    if substituted(bytes) {
        Some(DecodedModel::Rejected(AshError::Substituted))
    } else if data.len() == 0 {
        None
    } else if data.len() < MIN_FRAME_WITH_CRC {
        Some(
            DecodedModel::Rejected(
                AshError::TooShort { length: data.len() as usize, minimum: MIN_FRAME_WITH_CRC },
            ),
        )
    } else if data.len() > MAX_FRAME_WITH_CRC {
        Some(
            DecodedModel::Rejected(
                AshError::TooLong {
                    length: (MAX_FRAME_WITH_CRC + 1) as usize,
                    maximum: MAX_FRAME_WITH_CRC,
                },
            ),
        )
    } else if crc_of(covered) != carried {
        Some(DecodedModel::Rejected(AshError::BadCrc { computed: crc_of(covered), carried }))
    } else {
        let body = if covered[0] < 0x80 { randomised(covered.skip(1)) } else { covered.skip(1) };
        match FrameModel::from_parts(covered[0], body) {
            Ok(frame) => Some(DecodedModel::Frame(frame)),
            Err(error) => Some(DecodedModel::Rejected(error)),
        }
    }
}

/// Whether a run holds neither a delimiter nor a cancel.
pub open spec fn uninterrupted(bytes: Seq<u8>) -> bool {
    forall|i: int| 0 <= i < bytes.len() ==> bytes[i] != FLAG && bytes[i] != CANCEL
}

/// What a decoder holds after a run that starts between frames.
proof fn a_run_is_collected(bytes: Seq<u8>)
    requires
        uninterrupted(bytes),
    ensures
        ({
            let after = DecoderModel::clean().after_all(bytes);
            let data = unstuffed(bytes);
            &&& data.len() <= MAX_FRAME_WITH_CRC ==> after.partial == data
            &&& data.len() > MAX_FRAME_WITH_CRC ==> after.partial.len() == MAX_FRAME_WITH_CRC
            &&& after.escaped == escape_pending(bytes)
            &&& after.dropping == if substituted(bytes) {
                Some(AshError::Substituted)
            } else if data.len() > MAX_FRAME_WITH_CRC {
                Some(
                    AshError::TooLong {
                        length: (MAX_FRAME_WITH_CRC + 1) as usize,
                        maximum: MAX_FRAME_WITH_CRC,
                    },
                )
            } else {
                None
            }
        }),
        DecoderModel::clean().yields_all(bytes) == Seq::<DecodedModel>::empty(),
    decreases bytes.len(),
{
    if bytes.len() > 0 {
        assert(uninterrupted(bytes.drop_last()));
        a_run_is_collected(bytes.drop_last());
        assert(bytes.last() != FLAG && bytes.last() != CANCEL);
    }
}

/// What a delimiter yields, in whatever reads and after whatever stream the
/// bytes came: it depends on the run since the last delimiter or cancel alone,
/// and the decoder is between frames again.
pub proof fn a_delimiter_judges_its_run(decoder: DecoderModel, stream: Seq<u8>, run: Seq<u8>)
    requires
        if stream.len() == 0 {
            decoder == DecoderModel::clean()
        } else {
            stream.last() == FLAG || stream.last() == CANCEL
        },
        uninterrupted(run),
    ensures
        decoder.after_all(stream + run.push(FLAG)) == DecoderModel::clean(),
        decoder.yields_all(stream + run.push(FLAG)) == decoder.yields_all(stream)
            + match delimited(run) {
            Some(decoded) => seq![decoded],
            None => seq![],
        },
{
    let clean = DecoderModel::clean();
    let ended = run.push(FLAG);
    assert(decoder.after_all(stream) == clean);
    read_boundaries_do_not_matter(decoder, stream, ended);
    assert(ended.drop_last() =~= run);
    a_run_is_collected(run);
    assert(clean.after_all(run).yields(FLAG) == delimited(run));
    assert(clean.yields_all(ended) =~= match delimited(run) {
        Some(decoded) => seq![decoded],
        None => seq![],
    });
}

/// Only a delimiter yields anything; flow control changes nothing; a delimiter
/// and a cancel each leave the decoder as new.
pub proof fn what_single_bytes_do(decoder: DecoderModel, byte: u8)
    ensures
        byte != FLAG ==> decoder.yields(byte) is None,
        byte == XON || byte == XOFF ==> decoder.after(byte) == decoder,
        byte == FLAG || byte == CANCEL ==> decoder.after(byte) == DecoderModel::clean(),
{
}

/// A substitute anywhere in a run that is not too long spoils it, and nothing
/// else counts as one.
pub proof fn a_substitute_spoils_its_run(run: Seq<u8>)
    ensures
        unstuffed(run).len() <= MAX_FRAME_WITH_CRC ==> (substituted(run) <==> run.contains(
            SUBSTITUTE,
        )),
        substituted(run) ==> run.contains(SUBSTITUTE),
    decreases run.len(),
{
    if run.len() > 0 {
        let head = run.drop_last();
        a_substitute_spoils_its_run(head);
        assert(run =~= head.push(run.last()));
        if head.contains(SUBSTITUTE) {
            let i = choose|i: int| 0 <= i < head.len() && head[i] == SUBSTITUTE;
            assert(run[i] == SUBSTITUTE);
        }
        if run.last() == SUBSTITUTE {
            assert(run[run.len() - 1] == SUBSTITUTE);
        } else if run.contains(SUBSTITUTE) {
            let i = choose|i: int| 0 <= i < run.len() && run[i] == SUBSTITUTE;
            assert(head[i] == SUBSTITUTE);
        }
    }
}

/// One bit through the CRC register loses nothing.
proof fn crc_shift_is_injective(a: u16, b: u16, bits: nat)
    requires
        crc_shifted(a, bits) == crc_shifted(b, bits),
    ensures
        a == b,
    decreases bits,
{
    if bits > 0 {
        let x = crc_shifted(a, (bits - 1) as nat);
        let y = crc_shifted(b, (bits - 1) as nat);
        assert((if x & 0x8000 == 0 {
            x << 1
        } else {
            (x << 1) ^ 0x1021
        }) == (if y & 0x8000 == 0 {
            y << 1
        } else {
            (y << 1) ^ 0x1021
        }) ==> x == y) by (bit_vector);
        crc_shift_is_injective(a, b, (bits - 1) as nat);
    }
}

/// Two registers, or two bytes, that differ still differ after a step.
proof fn crc_step_keeps_differences(a: u16, x: u8, b: u16, y: u8)
    requires
        (a == b) != (x == y),
    ensures
        crc_step(a, x) != crc_step(b, y),
{
    if crc_step(a, x) == crc_step(b, y) {
        crc_shift_is_injective(a ^ ((x as u16) << 8), b ^ ((y as u16) << 8), 8);
        assert(a ^ ((x as u16) << 8) == b ^ ((y as u16) << 8) ==> (a == b) == (x == y))
            by (bit_vector);
    }
}

/// Changing one byte of a string changes its CRC.
pub proof fn the_crc_tells_one_changed_byte(bytes: Seq<u8>, at: int, byte: u8)
    requires
        0 <= at < bytes.len(),
        byte != bytes[at],
    ensures
        crc_of(bytes.update(at, byte)) != crc_of(bytes),
    decreases bytes.len(),
{
    let changed = bytes.update(at, byte);
    let head = bytes.drop_last();
    if at == bytes.len() - 1 {
        assert(changed.drop_last() =~= head);
    } else {
        assert(changed.drop_last() =~= head.update(at, byte));
        the_crc_tells_one_changed_byte(head, at, byte);
    }
    crc_step_keeps_differences(
        crc_of(changed.drop_last()),
        changed.last(),
        crc_of(head),
        bytes.last(),
    );
}

/// A frame that reaches its delimiter with one byte damaged, in its control
/// byte, its body or its CRC, is refused as such.
pub proof fn one_damaged_byte_is_refused(frame: FrameModel, at: int, byte: u8)
    requires
        0 <= at < with_crc(frame).len(),
        byte != with_crc(frame)[at],
    ensures
        completed(with_crc(frame).update(at, byte)) matches Some(
            DecodedModel::Rejected(error),
        ) && error is BadCrc,
{
    let bytes = with_crc(frame);
    let damaged = bytes.update(at, byte);
    let split = bytes.len() - 2;
    let crc = crc_of(covered(frame));
    assert(bytes.take(split) =~= covered(frame));
    if at < split {
        assert(damaged.take(split) =~= covered(frame).update(at, byte));
        the_crc_tells_one_changed_byte(covered(frame), at, byte);
        assert(256 * damaged[split] + damaged[split + 1] == crc);
    } else {
        assert(damaged.take(split) =~= covered(frame));
        assert(256 * damaged[split] + damaged[split + 1] != crc);
    }
}

} // verus!
