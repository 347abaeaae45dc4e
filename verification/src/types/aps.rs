//! The APS frame carried by `sendUnicast` and friends.

use vstd::prelude::*;

use crate::ezsp::codec::{
    bytes16, field, le16, skips_add, skips_nothing, Extent, EzspDecode, EzspEncode, Reader, Writer,
};
use crate::ezsp::error::EzspError;
use crate::ezsp::version::ProtocolVersion;

verus! {

/// APS transmission options.
///
/// A bitmask, and the bits are not interchangeable across destination kinds.
/// `RETRY` asks for an acknowledgement, which a multicast or broadcast can
/// never produce -- there is no single recipient to send one -- so setting it
/// there makes every send wait out a timeout and then report a delivery failure
/// that did not happen.
#[derive(Debug, Clone, Copy, PartialEq, Eq, Structural)]
pub struct ApsOptions(pub u16);

impl Default for ApsOptions {
    fn default() -> (res: Self)
        ensures
            res == ApsOptions(ApsOptions::NONE),
    {
        ApsOptions(ApsOptions::NONE)
    }
}

impl ApsOptions {
    /// No options.
    pub const NONE: u16 = 0x0000;

    /// Encrypt at the APS layer.
    pub const ENCRYPTION: u16 = 0x0020;

    /// Retry until acknowledged. Unicast only.
    pub const RETRY: u16 = 0x0040;

    /// Discover a route if none is known. Unicast only.
    pub const ENABLE_ROUTE_DISCOVERY: u16 = 0x0100;

    /// Force a fresh route discovery.
    pub const FORCE_ROUTE_DISCOVERY: u16 = 0x0200;

    /// Include our own EUI64.
    pub const SOURCE_EUI64: u16 = 0x0400;

    /// Include the destination's EUI64.
    pub const DESTINATION_EUI64: u16 = 0x0800;

    /// Discover the destination's short address if unknown.
    pub const ENABLE_ADDRESS_DISCOVERY: u16 = 0x1000;

    /// Combines two option sets.
    #[must_use]
    pub fn union(self, other: Self) -> (res: Self)
        ensures
            res == ApsOptions(self.0 | other.0),
    {
        ApsOptions(self.0 | other.0)
    }

    /// Whether an option is present.
    pub fn contains(self, other: Self) -> (res: bool)
        ensures
            res == (self.0 & other.0 == other.0),
    {
        self.0 & other.0 == other.0
    }

    /// The options a working stack sets for a unicast.
    ///
    /// Without retry a single lost frame reads as an unreachable device;
    /// without route discovery the first message to a device behind a router
    /// fails.
    pub fn unicast_defaults() -> (res: Self)
        ensures
            res == ApsOptions(ApsOptions::RETRY | ApsOptions::ENABLE_ROUTE_DISCOVERY),
    {
        ApsOptions(ApsOptions::RETRY | ApsOptions::ENABLE_ROUTE_DISCOVERY)
    }
}

/// A union of two option sets contains both, and nothing that neither has.
pub proof fn unions_contain_their_parts(a: ApsOptions, b: ApsOptions)
    ensures
        (a.0 | b.0) & a.0 == a.0,
        (a.0 | b.0) & b.0 == b.0,
        (a.0 | b.0) & !(a.0 | b.0) == 0,
        forall|bit: u16| bit & a.0 == 0 && bit & b.0 == 0 ==> #[trigger] (bit & (a.0 | b.0)) == 0,
{
    let (x, y) = (a.0, b.0);
    assert((x | y) & x == x && (x | y) & y == y && (x | y) & !(x | y) == 0) by (bit_vector);
    assert forall|bit: u16| bit & x == 0 && bit & y == 0 implies #[trigger] (bit & (x | y))
        == 0 by {
        assert(bit & x == 0 && bit & y == 0 ==> bit & (x | y) == 0) by (bit_vector);
    }
}

/// An APS frame header.
///
/// Eleven bytes on the wire. Note there is no radius field: `EmberZNet` takes it
/// as a separate argument to the send command rather than inside the frame, and
/// including one here would shift every following field.
#[derive(Debug, Clone, Copy, PartialEq, Eq, Structural)]
pub struct ApsFrame {
    /// Application profile, e.g. `0x0104` for Home Automation.
    pub profile_id: u16,
    /// Cluster.
    pub cluster_id: u16,
    /// Our endpoint.
    pub source_endpoint: u8,
    /// Their endpoint.
    pub destination_endpoint: u8,
    /// Transmission options.
    pub options: ApsOptions,
    /// Group, for multicast. Zero otherwise.
    ///
    /// A multicast's destination lives *here*, not in the send command's
    /// arguments: `sendMulticast` takes no address and reads the group from the
    /// frame, so a multicast built without it addresses group zero -- which
    /// sends successfully and reaches nobody.
    pub group_id: u16,
    /// APS sequence, assigned by the NCP when sending.
    pub sequence: u8,
}

/// How many bytes an APS frame occupies.
pub const APS_FRAME_LEN: usize = 11;

impl Default for ApsFrame {
    fn default() -> (res: Self)
        ensures
            res == (ApsFrame {
                profile_id: 0,
                cluster_id: 0,
                source_endpoint: 0,
                destination_endpoint: 0,
                options: ApsOptions(ApsOptions::NONE),
                group_id: 0,
                sequence: 0,
            }),
    {
        ApsFrame {
            profile_id: 0,
            cluster_id: 0,
            source_endpoint: 0,
            destination_endpoint: 0,
            options: ApsOptions(ApsOptions::NONE),
            group_id: 0,
            sequence: 0,
        }
    }
}

impl ApsFrame {
    /// The header that `bytes` begin with.
    pub open spec fn at_start_of(bytes: Seq<u8>) -> ApsFrame {
        ApsFrame {
            profile_id: le16(bytes, 0),
            cluster_id: le16(bytes, 2),
            source_endpoint: bytes[4],
            destination_endpoint: bytes[5],
            options: ApsOptions(le16(bytes, 6)),
            group_id: le16(bytes, 8),
            sequence: bytes[10],
        }
    }
}

impl EzspEncode for ApsFrame {
    open spec fn encoding(&self, version: ProtocolVersion) -> Seq<u8> {
        bytes16(self.profile_id) + bytes16(self.cluster_id) + seq![
            self.source_endpoint,
            self.destination_endpoint,
        ] + bytes16(self.options.0) + bytes16(self.group_id) + seq![self.sequence]
    }

    open spec fn encode_failure(&self, version: ProtocolVersion) -> Option<EzspError> {
        None
    }

    fn encode(&self, out: &mut Writer) -> (res: Result<(), EzspError>) {
        out.u16(self.profile_id);
        out.u16(self.cluster_id);
        out.u8(self.source_endpoint);
        out.u8(self.destination_endpoint);
        out.u16(self.options.0);
        out.u16(self.group_id);
        out.u8(self.sequence);
        proof {
            assert(out@ =~= old(out)@ + self.encoding(old(out).target()));
        }
        Ok(())
    }
}

impl EzspDecode for ApsFrame {
    open spec fn extent(bytes: Seq<u8>, version: ProtocolVersion) -> Extent {
        let n = bytes.len();
        field(n, 0, 2, field(n, 2, 2, field(n, 4, 1, field(n, 5, 1, field(n, 6, 2, field(
            n,
            8,
            2,
            field(n, 10, 1, Extent::Whole(APS_FRAME_LEN as nat)),
        ))))))
    }

    open spec fn read_from(self, bytes: Seq<u8>, version: ProtocolVersion) -> bool {
        self == ApsFrame::at_start_of(bytes)
    }

    fn decode(input: &mut Reader<'_>) -> (res: Result<Self, EzspError>) {
        broadcast use {skips_add, skips_nothing};

        Ok(
            ApsFrame {
                profile_id: input.u16()?,
                cluster_id: input.u16()?,
                source_endpoint: input.u8()?,
                destination_endpoint: input.u8()?,
                options: ApsOptions(input.u16()?),
                group_id: input.u16()?,
                sequence: input.u8()?,
            },
        )
    }
}

/// An APS header is eleven bytes, reads back as what was written, and is
/// refused at every shorter length.
pub proof fn aps_frames_round_trip(frame: ApsFrame, version: ProtocolVersion, behind: Seq<u8>)
    ensures
        frame.encoding(version).len() == APS_FRAME_LEN,
        ApsFrame::extent(frame.encoding(version) + behind, version) == Extent::Whole(
            APS_FRAME_LEN as nat,
        ),
        ApsFrame::at_start_of(frame.encoding(version) + behind) == frame,
        forall|bytes: Seq<u8>|
            (#[trigger] ApsFrame::extent(bytes, version)) is Whole <==> bytes.len()
                >= APS_FRAME_LEN,
{
}

/// How a unicast is addressed.
#[derive(Debug, Clone, Copy, PartialEq, Eq, Structural)]
pub enum UnicastType {
    /// Straight to a short address.
    Direct,
    /// Via an address table entry.
    ViaAddressTable,
    /// Via a binding table entry.
    ViaBinding,
    /// A multicast, addressed by the frame's group.
    Multicast,
    /// A broadcast.
    Broadcast,
}

impl UnicastType {
    /// The wire value.
    pub open spec fn wire_value(self) -> u8 {
        match self {
            UnicastType::Direct => 0x00,
            UnicastType::ViaAddressTable => 0x01,
            UnicastType::ViaBinding => 0x02,
            UnicastType::Multicast => 0x03,
            UnicastType::Broadcast => 0x04,
        }
    }

    /// The wire value.
    pub fn raw(self) -> (res: u8)
        ensures
            res == self.wire_value(),
    {
        match self {
            UnicastType::Direct => 0x00,
            UnicastType::ViaAddressTable => 0x01,
            UnicastType::ViaBinding => 0x02,
            UnicastType::Multicast => 0x03,
            UnicastType::Broadcast => 0x04,
        }
    }
}

impl EzspEncode for UnicastType {
    open spec fn encoding(&self, version: ProtocolVersion) -> Seq<u8> {
        seq![self.wire_value()]
    }

    open spec fn encode_failure(&self, version: ProtocolVersion) -> Option<EzspError> {
        None
    }

    fn encode(&self, out: &mut Writer) -> (res: Result<(), EzspError>) {
        out.u8(self.raw());
        Ok(())
    }
}

} // verus!
