//! The negotiated EZSP protocol version, and what it changes.
//!
//! EZSP is not one wire format: the same command is encoded differently
//! depending on the version the host and NCP agreed on, and a library with
//! fixed per-command layouts can only ever be correct for the one version its
//! author tested against.
//!
//! Concretely, at the EZSP 14 boundary:
//!
//! | | below 14 | 14 and above |
//! |---|---|---|
//! | a status value | `u8` (`EmberStatus`) | `u32` (`sl_status_t`) |
//! | `sendUnicast` message tag | `u8` | `u16` |
//! | `importTransientKey` flags | present | absent |
//!
//! Those are not obscure corners. A status is in almost every response, and
//! `sendUnicast` is the most-used command there is. Getting the width wrong
//! shifts every following field, so the frame still parses and every value
//! after the mistake is plausible and wrong.
//!
//! So [`ProtocolVersion`] is threaded through every encoder and decoder rather
//! than stored once and hoped about, and the boundaries are named predicates
//! instead of `if version < 0x0e` scattered across the codebase.

use vstd::prelude::*;

use crate::text::{decimal, push_decimal};

verus! {

/// A negotiated EZSP protocol version.
///
/// A newtype rather than a bare `u8` because it is not an ordinary number: two
/// versions differing by one can have different wire formats, and the point of
/// the type is that the comparison is always made through a named predicate.
#[derive(Debug, Clone, Copy, PartialEq, Eq, Structural, PartialOrd, Ord, Hash)]
pub struct ProtocolVersion(pub u8);

impl ProtocolVersion {
    /// The lowest version this crate will speak.
    ///
    /// EZSP 13, matching what current `EmberZNet` firmware negotiates. Older
    /// NCPs used a different frame format for *every* command, not just some
    /// fields, and claiming support without a device to test against would be
    /// a guess presented as a feature.
    pub const MIN_SUPPORTED: u8 = 0x0d;

    /// The highest version this crate knows the differences for.
    pub const MAX_SUPPORTED: u8 = 0x13;

    /// The version a host asks for first.
    ///
    /// The NCP answers with its own, which may be lower; that answer is what
    /// everything afterwards is encoded for.
    pub const PREFERRED: u8 = 0x13;

    /// The version at which several field widths changed.
    ///
    /// Named because it appears in more than one place and `0x0e` at a call
    /// site says nothing about why it matters.
    pub const WIDER_STATUS: u8 = 0x0e;

    /// Whether this crate knows how to speak it.
    pub open spec fn supported(self) -> bool {
        ProtocolVersion::MIN_SUPPORTED <= self.0 <= ProtocolVersion::MAX_SUPPORTED
    }

    /// Whether the wider fields of EZSP 14 are in use.
    pub open spec fn wide(self) -> bool {
        self.0 >= ProtocolVersion::WIDER_STATUS
    }

    /// How many bytes a status takes.
    pub open spec fn status_width(self) -> nat {
        if self.wide() { 4 } else { 1 }
    }

    /// How many bytes a message tag takes.
    pub open spec fn tag_width(self) -> nat {
        if self.wide() { 2 } else { 1 }
    }

    /// Wraps a raw version number.
    pub fn new(raw: u8) -> (res: Self)
        ensures
            res == ProtocolVersion(raw),
    {
        ProtocolVersion(raw)
    }

    /// The raw number, for the wire.
    pub fn raw(self) -> (res: u8)
        ensures
            res == self.0,
    {
        self.0
    }

    /// Whether this crate knows how to speak it.
    pub fn is_supported(self) -> (res: bool)
        ensures
            res == self.supported(),
    {
        self.0 >= ProtocolVersion::MIN_SUPPORTED && self.0 <= ProtocolVersion::MAX_SUPPORTED
    }

    /// Whether a status field is four bytes rather than one.
    ///
    /// Below EZSP 14 a status is a one-byte `EmberStatus`; at 14 and above it
    /// is a four-byte `sl_status_t`. Since a status is the first field of most
    /// responses, getting this wrong misaligns everything after it.
    pub fn has_wide_status(self) -> (res: bool)
        ensures
            res == self.wide(),
            res == (self.status_width() == 4),
    {
        self.0 >= ProtocolVersion::WIDER_STATUS
    }

    /// Whether `sendUnicast` takes a two-byte message tag.
    pub fn has_wide_message_tag(self) -> (res: bool)
        ensures
            res == self.wide(),
            res == (self.tag_width() == 2),
    {
        self.0 >= ProtocolVersion::WIDER_STATUS
    }

    /// Whether `importTransientKey` carries a trailing flags byte.
    ///
    /// Present below EZSP 14 and gone at 14 and above. A key sent without the
    /// byte where it is due is spliced out of the wrong bytes -- the NCP
    /// answers `OK` and a joining device can never finish commissioning.
    pub fn has_transient_key_flags(self) -> (res: bool)
        ensures
            res == !self.wide(),
    {
        self.0 < ProtocolVersion::WIDER_STATUS
    }

    /// The version as people write it: `v` and the number.
    pub open spec fn text(self) -> Seq<char> {
        "v"@ + decimal(self.0 as nat)
    }

    /// The version as people write it.
    pub fn to_string(&self) -> (res: String)
        ensures
            res@ == self.text(),
    {
        let mut out = String::new();
        out.append("v");
        push_decimal(&mut out, self.0 as u64);
        proof {
            assert(out@ =~= self.text());
        }
        out
    }
}

/// The version a host asks for first is one it can speak, and so are both ends
/// of the supported range; a version outside the range is not.
pub proof fn the_supported_range_is_closed(version: ProtocolVersion)
    ensures
        ProtocolVersion(ProtocolVersion::PREFERRED).supported(),
        ProtocolVersion(ProtocolVersion::MIN_SUPPORTED).supported(),
        ProtocolVersion(ProtocolVersion::MAX_SUPPORTED).supported(),
        version.supported() <==> 13 <= version.0 <= 19,
{
}

/// Every width changes at one boundary: the statuses and tags widen exactly
/// where the flags of a transient key disappear.
pub proof fn widths_change_together(version: ProtocolVersion)
    ensures
        version.status_width() == 4 <==> version.0 >= 14,
        version.tag_width() == 2 <==> version.0 >= 14,
        version.status_width() == 1 || version.status_width() == 4,
        version.tag_width() == 1 || version.tag_width() == 2,
{
}

} // verus!
