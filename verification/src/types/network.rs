//! Network-layer types.

use vstd::prelude::*;

use crate::ezsp::codec::{
    bytes16, bytes32, field, le16, le32, skips_add, skips_nothing, u32_is_its_bytes,
    u32_round_trips, Extent, EzspDecode, EzspEncode, Reader, Writer,
};
use crate::ezsp::error::EzspError;
use crate::ezsp::version::ProtocolVersion;
use crate::text::{fitting_values_have_fixed_width, hex, hex_limit, push_hex};

verus! {

/// A 64-bit IEEE address (EUI64).
///
/// Stored big-endian as people write it, and transmitted little-endian as EZSP
/// sends it. Keeping both straight in one place is deliberate: the two forms
/// look identical in a debugger and a mix-up produces an address that is valid,
/// wrong, and byte-reversed -- which reads as a completely different device.
#[derive(Clone, Copy, PartialEq, Eq, Structural, PartialOrd, Ord, Hash)]
pub struct Eui64(pub u64);

/// The little-endian `u64` at offset `at`.
pub open spec fn le64(bytes: Seq<u8>, at: int) -> u64 {
    (le32(bytes, at) + 0x1_0000_0000 * le32(bytes, at + 4)) as u64
}

/// A `u64` as eight bytes, least significant first.
pub open spec fn bytes64(value: u64) -> Seq<u8> {
    bytes32((value % 0x1_0000_0000) as u32) + bytes32((value / 0x1_0000_0000) as u32)
}

/// Eight bytes written are eight bytes read.
pub proof fn u64_round_trips(value: u64, behind: Seq<u8>)
    ensures
        le64(bytes64(value) + behind, 0) == value,
{
    let low = (value % 0x1_0000_0000) as u32;
    let high = (value / 0x1_0000_0000) as u32;
    let bytes = bytes64(value) + behind;
    u32_round_trips(low, behind);
    u32_round_trips(high, behind);
    assert(le32(bytes, 0) == le32(bytes32(low) + behind, 0));
    assert(le32(bytes, 4) == le32(bytes32(high) + behind, 0));
}

/// The two halves of a `u64` are its remainder and quotient by two to the
/// thirty-second.
proof fn halves(low: u32, high: u32)
    ensures
        (low + 0x1_0000_0000 * high) % 0x1_0000_0000 == low,
        (low + 0x1_0000_0000 * high) / 0x1_0000_0000 == high as int,
        low + 0x1_0000_0000 * high <= u64::MAX,
{
}

/// Eight bytes read are the eight bytes written for that value.
proof fn bytes64_of_le64(bytes: Seq<u8>)
    requires
        bytes.len() == 8,
    ensures
        bytes64(le64(bytes, 0)) == bytes,
{
    let low = bytes.subrange(0, 4);
    let high = bytes.subrange(4, 8);
    assert(le32(bytes, 0) == le32(low, 0));
    assert(le32(bytes, 4) == le32(high, 0));
    u32_is_its_bytes(low);
    u32_is_its_bytes(high);
    halves(le32(low, 0), le32(high, 0));
    assert(bytes64(le64(bytes, 0)) =~= bytes);
}

impl Default for Eui64 {
    fn default() -> (res: Self)
        ensures
            res == Eui64(0),
    {
        Eui64(0)
    }
}

impl Eui64 {
    /// The wildcard address, used where a command means "any device".
    pub const WILDCARD: u64 = 0xffff_ffff_ffff_ffff;

    /// From a `u64` written the way the address is printed.
    pub fn new(value: u64) -> (res: Self)
        ensures
            res == Eui64(value),
    {
        Eui64(value)
    }

    /// The value, in print order.
    pub fn raw(self) -> (res: u64)
        ensures
            res == self.0,
    {
        self.0
    }

    /// The bytes as EZSP carries them: least significant first.
    pub fn to_wire(self) -> (res: [u8; 8])
        ensures
            res@ == bytes64(self.0),
    {
        let low: u32 = (self.0 % 0x1_0000_0000) as u32;
        let high: u32 = (self.0 / 0x1_0000_0000) as u32;
        let res: [u8; 8] = [
            (low % 0x100) as u8,
            ((low / 0x100) % 0x100) as u8,
            ((low / 0x1_0000) % 0x100) as u8,
            (low / 0x100_0000) as u8,
            (high % 0x100) as u8,
            ((high / 0x100) % 0x100) as u8,
            ((high / 0x1_0000) % 0x100) as u8,
            (high / 0x100_0000) as u8,
        ];
        proof {
            assert(res@ =~= bytes64(self.0));
        }
        res
    }

    /// From the bytes as EZSP carries them.
    pub fn from_wire(bytes: [u8; 8]) -> (res: Self)
        ensures
            res == Eui64(le64(bytes@, 0)),
    {
        let low: u32 = bytes[0] as u32 + 0x100 * (bytes[1] as u32) + 0x1_0000 * (bytes[2] as u32)
            + 0x100_0000 * (bytes[3] as u32);
        let high: u32 = bytes[4] as u32 + 0x100 * (bytes[5] as u32) + 0x1_0000 * (bytes[6] as u32)
            + 0x100_0000 * (bytes[7] as u32);
        Eui64(low as u64 + 0x1_0000_0000 * (high as u64))
    }

    /// The address as people write it: sixteen hexadecimal digits.
    pub open spec fn text(self) -> Seq<char> {
        hex(self.0 as nat, 16)
    }

    /// The address as people write it.
    pub fn to_string(&self) -> (res: String)
        ensures
            res@ == self.text(),
    {
        let mut out = String::new();
        push_hex(&mut out, self.0, 16);
        proof {
            assert(out@ =~= self.text());
        }
        out
    }
}

impl core::fmt::Debug for Eui64 {
    /// Hexadecimal, not the derived form: an address in decimal cannot be
    /// compared against a label, a log line from elsewhere, or a datasheet.
    fn fmt(&self, f: &mut core::fmt::Formatter<'_>) -> core::fmt::Result {
        f.write_str(self.to_string().as_str())
    }
}

impl EzspEncode for Eui64 {
    open spec fn encoding(&self, version: ProtocolVersion) -> Seq<u8> {
        bytes64(self.0)
    }

    open spec fn encode_failure(&self, version: ProtocolVersion) -> Option<EzspError> {
        None
    }

    fn encode(&self, out: &mut Writer) -> (res: Result<(), EzspError>) {
        out.bytes(self.to_wire().as_slice());
        proof {
            assert(self.encode_failure(out.target()) is None);
            assert(out@ =~= old(out)@ + self.encoding(old(out).target()));
        }
        Ok(())
    }
}

impl EzspDecode for Eui64 {
    open spec fn extent(bytes: Seq<u8>, version: ProtocolVersion) -> Extent {
        field(bytes.len(), 0, 8, Extent::Whole(8))
    }

    open spec fn read_from(self, bytes: Seq<u8>, version: ProtocolVersion) -> bool {
        self == Eui64(le64(bytes, 0))
    }

    fn decode(input: &mut Reader<'_>) -> (res: Result<Self, EzspError>) {
        Ok(Eui64::from_wire(input.array::<8>()?))
    }
}

/// An address is the same address after a trip over the wire, in either
/// direction, and fewer than eight bytes are none.
pub proof fn addresses_round_trip(
    address: Eui64,
    bytes: Seq<u8>,
    version: ProtocolVersion,
    behind: Seq<u8>,
)
    requires
        bytes.len() == 8,
    ensures
        Eui64::extent(address.encoding(version) + behind, version) == Extent::Whole(8),
        Eui64(le64(address.encoding(version) + behind, 0)) == address,
        Eui64(le64(bytes, 0)).encoding(version) == bytes,
        forall|short: Seq<u8>|
            (#[trigger] Eui64::extent(short, version)) is Whole <==> short.len() >= 8,
{
    u64_round_trips(address.0, behind);
    bytes64_of_le64(bytes);
}

/// An address is always written with sixteen digits behind `0x`, a short one
/// with four, so two of a kind can be compared by eye.
pub proof fn addresses_have_fixed_width(address: Eui64, node: NodeId)
    ensures
        address.text().len() == 18,
        node.text().len() == 6,
{
    reveal_strlit("0x");
    assert(hex_limit(16) == 0x1_0000_0000_0000_0000 && hex_limit(4) == 0x1_0000) by {
        reveal_with_fuel(hex_limit, 17);
    }
    fitting_values_have_fixed_width(address.0 as nat, 16);
    fitting_values_have_fixed_width(node.0 as nat, 4);
}

/// A 16-bit network (short) address.
#[derive(Clone, Copy, PartialEq, Eq, Structural, PartialOrd, Ord, Hash)]
pub struct NodeId(pub u16);

impl Default for NodeId {
    fn default() -> (res: Self)
        ensures
            res == NodeId(0),
    {
        NodeId(0)
    }
}

impl NodeId {
    /// The coordinator is always zero.
    pub const COORDINATOR: u16 = 0x0000;

    /// Broadcast to every device.
    pub const BROADCAST_ALL: u16 = 0xffff;

    /// Broadcast to devices whose radio is on when idle.
    pub const BROADCAST_RX_ON_WHEN_IDLE: u16 = 0xfffd;

    /// Broadcast to routers and the coordinator.
    pub const BROADCAST_ROUTERS: u16 = 0xfffc;

    /// The address as people write it: four hexadecimal digits.
    pub open spec fn text(self) -> Seq<char> {
        hex(self.0 as nat, 4)
    }

    /// The address as people write it.
    pub fn to_string(&self) -> (res: String)
        ensures
            res@ == self.text(),
    {
        let mut out = String::new();
        push_hex(&mut out, self.0 as u64, 4);
        proof {
            assert(out@ =~= self.text());
        }
        out
    }
}

impl core::fmt::Debug for NodeId {
    /// Hexadecimal too: short addresses are written and discussed in hex
    /// everywhere, and `0x3a41` is recognisable where `14913` is not.
    fn fmt(&self, f: &mut core::fmt::Formatter<'_>) -> core::fmt::Result {
        f.write_str(self.to_string().as_str())
    }
}

impl EzspEncode for NodeId {
    open spec fn encoding(&self, version: ProtocolVersion) -> Seq<u8> {
        bytes16(self.0)
    }

    open spec fn encode_failure(&self, version: ProtocolVersion) -> Option<EzspError> {
        None
    }

    fn encode(&self, out: &mut Writer) -> (res: Result<(), EzspError>) {
        out.u16(self.0);
        Ok(())
    }
}

impl EzspDecode for NodeId {
    open spec fn extent(bytes: Seq<u8>, version: ProtocolVersion) -> Extent {
        field(bytes.len(), 0, 2, Extent::Whole(2))
    }

    open spec fn read_from(self, bytes: Seq<u8>, version: ProtocolVersion) -> bool {
        self == NodeId(le16(bytes, 0))
    }

    fn decode(input: &mut Reader<'_>) -> (res: Result<Self, EzspError>) {
        Ok(NodeId(input.u16()?))
    }
}

/// Flags for `networkInit`.
///
/// A bitmask rather than an enum: the values combine, and the one that matters
/// in practice is `PARENT_INFO_IN_TOKEN`.
#[derive(Debug, Clone, Copy, PartialEq, Eq, Structural)]
pub struct NetworkInitBitmask(pub u16);

impl Default for NetworkInitBitmask {
    fn default() -> (res: Self)
        ensures
            res == NetworkInitBitmask(NetworkInitBitmask::NONE),
    {
        NetworkInitBitmask(NetworkInitBitmask::NONE)
    }
}

impl NetworkInitBitmask {
    /// No flags.
    pub const NONE: u16 = 0x0000;

    /// Restore an end device's parent from persistent storage.
    pub const PARENT_INFO_IN_TOKEN: u16 = 0x0001;

    /// Rejoin as an end device on failure.
    pub const END_DEVICE_REJOIN_ON_REBOOT: u16 = 0x0002;

    /// Both flags set.
    #[must_use]
    pub fn union(self, other: Self) -> (res: Self)
        ensures
            res == NetworkInitBitmask(self.0 | other.0),
    {
        NetworkInitBitmask(self.0 | other.0)
    }
}

impl EzspEncode for NetworkInitBitmask {
    open spec fn encoding(&self, version: ProtocolVersion) -> Seq<u8> {
        bytes16(self.0)
    }

    open spec fn encode_failure(&self, version: ProtocolVersion) -> Option<EzspError> {
        None
    }

    fn encode(&self, out: &mut Writer) -> (res: Result<(), EzspError>) {
        out.u16(self.0);
        Ok(())
    }
}

/// A configuration item settable with `setConfigurationValue`.
///
/// Only the items with a known effect are named. The type carries the raw id so
/// an unnamed one can still be set, because the alternative is that a caller
/// with a datasheet cannot use this crate until someone adds a constant.
#[derive(Debug, Clone, Copy, PartialEq, Eq, Structural, PartialOrd, Ord, Hash)]
pub struct ConfigId(pub u8);

impl ConfigId {
    /// `EZSP_CONFIG_STACK_PROFILE`. Must be 2 for `ZigBee` Pro, and it is
    /// advertised in every beacon: a device scanning for a network reads it and
    /// will not attempt to join if it is wrong.
    pub const STACK_PROFILE: u8 = 0x0c;

    /// `EZSP_CONFIG_SECURITY_LEVEL`. Standard security is 5, also advertised
    /// in beacons.
    pub const SECURITY_LEVEL: u8 = 0x0d;

    /// `EZSP_CONFIG_MAX_HOPS`.
    pub const MAX_HOPS: u8 = 0x10;

    /// `EZSP_CONFIG_MAX_END_DEVICE_CHILDREN`. The end-device capacity a
    /// joining device reads out of the beacon.
    pub const MAX_END_DEVICE_CHILDREN: u8 = 0x11;

    /// `EZSP_CONFIG_INDIRECT_TRANSMISSION_TIMEOUT`, in milliseconds.
    pub const INDIRECT_TRANSMISSION_TIMEOUT: u8 = 0x12;

    /// `EZSP_CONFIG_END_DEVICE_POLL_TIMEOUT`.
    pub const END_DEVICE_POLL_TIMEOUT: u8 = 0x13;

    /// `EZSP_CONFIG_TRUST_CENTER_ADDRESS_CACHE_SIZE`.
    pub const TRUST_CENTER_ADDRESS_CACHE_SIZE: u8 = 0x19;

    /// `EZSP_CONFIG_KEY_TABLE_SIZE`.
    pub const KEY_TABLE_SIZE: u8 = 0x1e;

    /// `EZSP_CONFIG_APS_UNICAST_MESSAGE_COUNT`.
    pub const APS_UNICAST_MESSAGE_COUNT: u8 = 0x03;
}

/// A value readable with `getValue`, by its raw id.
#[derive(Debug, Clone, Copy, PartialEq, Eq, Structural, PartialOrd, Ord, Hash)]
pub struct ValueId(pub u8);

/// What `networkState` reports: a one-byte enumeration, carried raw.
#[derive(Debug, Clone, Copy, PartialEq, Eq, Structural, PartialOrd, Ord, Hash)]
pub struct NetworkStatus(pub u8);

/// A policy settable with `setPolicy`.
#[derive(Debug, Clone, Copy, PartialEq, Eq, Structural, PartialOrd, Ord, Hash)]
pub struct PolicyId(pub u8);

impl PolicyId {
    /// Whether and how a device is admitted to the network.
    pub const TRUST_CENTER: u8 = 0x00;

    /// Whether a remote device may change our binding table.
    pub const BINDING_MODIFICATION: u8 = 0x01;

    /// Whether the host supplies replies to unicasts.
    pub const UNICAST_REPLIES: u8 = 0x02;

    /// Whether message contents come back in the sent callback.
    pub const MESSAGE_CONTENTS_IN_CALLBACK: u8 = 0x04;

    /// How to answer a device asking for the trust-centre link key.
    pub const TC_KEY_REQUEST: u8 = 0x05;

    /// How to answer a device asking for an application link key.
    pub const APP_KEY_REQUEST: u8 = 0x06;
}

/// A decision value for [`PolicyId`].
///
/// Deliberately **not** an enum of named constants for the trust-centre policy.
/// On `EmberZNet` 7.x that field is an `EmberDecisionBitmask` whose bits combine,
/// while the pre-EZSP-8 `EzspDecisionId` gave the same numbers unrelated
/// meanings -- `ALLOW_JOINS` was `0x00`, which modern firmware reads as
/// "default configuration", meaning deny. A library offering that name for that
/// value sets the policy to deny while its own log line says allow. So the
/// bitmask bits are named individually and combined explicitly.
#[derive(Debug, Clone, Copy, PartialEq, Eq, Structural)]
pub struct Decision(pub u8);

impl Default for Decision {
    fn default() -> (res: Self)
        ensures
            res == Decision(0),
    {
        Decision(0)
    }
}

impl Decision {
    /// Trust-centre bitmask: admit a joining device with no link key yet.
    pub const ALLOW_JOINS: u8 = 0x01;

    /// Trust-centre bitmask: admit an unsecured rejoin.
    ///
    /// A sleepy device that lost its parent -- a battery change, or a wake
    /// outside its poll timeout -- comes back this way. Without the bit it
    /// never returns, which reads as a device that paired once and then died.
    pub const ALLOW_UNSECURED_REJOINS: u8 = 0x02;

    /// Trust-centre bitmask: send the network key in the clear.
    pub const SEND_KEY_IN_CLEAR: u8 = 0x04;

    /// Trust-centre bitmask: joins must use an install code.
    pub const JOINS_USE_INSTALL_CODE_KEY: u8 = 0x10;

    /// `TC_KEY_REQUEST`: answer with the current link key.
    pub const ALLOW_TC_KEY_REQUEST_SAME_KEY: u8 = 0x51;

    /// `TC_KEY_REQUEST`: refuse.
    pub const DENY_TC_KEY_REQUESTS: u8 = 0x50;

    /// `APP_KEY_REQUEST`: refuse.
    pub const DENY_APP_KEY_REQUESTS: u8 = 0x60;

    /// `BINDING_MODIFICATION`: allow only for valid endpoints and clusters.
    pub const CHECK_BINDING_MODIFICATIONS: u8 = 0x12;

    /// Combines two bitmask bits.
    #[must_use]
    pub fn union(self, other: Self) -> (res: Self)
        ensures
            res == Decision(self.0 | other.0),
    {
        Decision(self.0 | other.0)
    }
}

/// A network's parameters, as `formNetwork` sends and `getNetworkParameters`
/// reads them. Twenty bytes on the wire.
#[derive(Debug, Clone, Copy, PartialEq, Eq)]
pub struct NetworkParameters {
    /// The extended PAN id.
    pub extended_pan_id: [u8; 8],
    /// The PAN id.
    pub pan_id: u16,
    /// Transmit power, in dBm.
    pub radio_tx_power: i8,
    /// The channel.
    pub radio_channel: u8,
    /// How the network is joined.
    pub join_method: u8,
    /// The network manager's short address.
    pub nwk_manager_id: u16,
    /// The update id, bumped when the parameters change.
    pub nwk_update_id: u8,
    /// The channels the network may use, as a bitmask.
    pub channels: u32,
}

/// How many bytes network parameters occupy.
pub const NETWORK_PARAMETERS_LEN: usize = 20;

/// A signed byte as it goes on the wire, in two's complement.
pub open spec fn signed_to_byte(value: i8) -> u8 {
    if value >= 0 {
        value as u8
    } else {
        (value + 256) as u8
    }
}

/// The signed byte that a wire byte stands for.
pub open spec fn byte_to_signed(byte: u8) -> i8 {
    if byte < 128 {
        byte as i8
    } else {
        (byte - 256) as i8
    }
}

/// A signed byte as it goes on the wire.
pub fn signed_byte(value: i8) -> (res: u8)
    ensures
        res == signed_to_byte(value),
{
    if value >= 0 {
        value as u8
    } else {
        (value as i16 + 256) as u8
    }
}

/// The signed byte that a wire byte stands for.
pub fn from_signed_byte(byte: u8) -> (res: i8)
    ensures
        res == byte_to_signed(byte),
{
    if byte < 128 {
        byte as i8
    } else {
        (byte as i16 - 256) as i8
    }
}

impl EzspEncode for NetworkParameters {
    open spec fn encoding(&self, version: ProtocolVersion) -> Seq<u8> {
        self.extended_pan_id@ + bytes16(self.pan_id) + seq![
            signed_to_byte(self.radio_tx_power),
            self.radio_channel,
            self.join_method,
        ] + bytes16(self.nwk_manager_id) + seq![self.nwk_update_id] + bytes32(self.channels)
    }

    open spec fn encode_failure(&self, version: ProtocolVersion) -> Option<EzspError> {
        None
    }

    fn encode(&self, out: &mut Writer) -> (res: Result<(), EzspError>) {
        out.bytes(self.extended_pan_id.as_slice());
        out.u16(self.pan_id);
        out.u8(signed_byte(self.radio_tx_power));
        out.u8(self.radio_channel);
        out.u8(self.join_method);
        out.u16(self.nwk_manager_id);
        out.u8(self.nwk_update_id);
        out.u32(self.channels);
        proof {
            assert(out@ =~= old(out)@ + self.encoding(old(out).target()));
        }
        Ok(())
    }
}

impl EzspDecode for NetworkParameters {
    open spec fn extent(bytes: Seq<u8>, version: ProtocolVersion) -> Extent {
        let n = bytes.len();
        field(n, 0, 8, field(n, 8, 2, field(n, 10, 1, field(n, 11, 1, field(n, 12, 1, field(
            n,
            13,
            2,
            field(n, 15, 1, field(n, 16, 4, Extent::Whole(NETWORK_PARAMETERS_LEN as nat))),
        ))))))
    }

    open spec fn read_from(self, bytes: Seq<u8>, version: ProtocolVersion) -> bool {
        &&& self.extended_pan_id@ == bytes.take(8)
        &&& self.pan_id == le16(bytes, 8)
        &&& self.radio_tx_power == byte_to_signed(bytes[10])
        &&& self.radio_channel == bytes[11]
        &&& self.join_method == bytes[12]
        &&& self.nwk_manager_id == le16(bytes, 13)
        &&& self.nwk_update_id == bytes[15]
        &&& self.channels == le32(bytes, 16)
    }

    fn decode(input: &mut Reader<'_>) -> (res: Result<Self, EzspError>) {
        broadcast use {skips_add, skips_nothing};

        Ok(
            NetworkParameters {
                extended_pan_id: input.array::<8>()?,
                pan_id: input.u16()?,
                radio_tx_power: from_signed_byte(input.u8()?),
                radio_channel: input.u8()?,
                join_method: input.u8()?,
                nwk_manager_id: input.u16()?,
                nwk_update_id: input.u8()?,
                channels: input.u32()?,
            },
        )
    }
}

/// Network parameters read back as they were written, from twenty bytes and
/// never from fewer.
pub proof fn network_parameters_round_trip_on_the_wire(
    parameters: NetworkParameters,
    version: ProtocolVersion,
    behind: Seq<u8>,
)
    ensures
        parameters.encoding(version).len() == NETWORK_PARAMETERS_LEN,
        NetworkParameters::extent(parameters.encoding(version) + behind, version)
            == Extent::Whole(NETWORK_PARAMETERS_LEN as nat),
        parameters.read_from(parameters.encoding(version) + behind, version),
        forall|bytes: Seq<u8>|
            (#[trigger] NetworkParameters::extent(bytes, version)) is Whole <==> bytes.len()
                >= NETWORK_PARAMETERS_LEN,
{
    let bytes = parameters.encoding(version) + behind;
    assert(bytes.take(8) =~= parameters.extended_pan_id@);
    u32_round_trips(parameters.channels, behind);
    assert(le32(bytes, 16) == le32(bytes32(parameters.channels) + behind, 0));
}

} // verus!
