//! Key material.

use vstd::prelude::*;

use crate::ezsp::codec::{
    bytes16, bytes32, field, le32, skips_add, skips_nothing, u32_round_trips, Extent, EzspDecode,
    EzspEncode, Reader, Writer,
};
use crate::ezsp::error::EzspError;
use crate::ezsp::version::ProtocolVersion;
use crate::types::network::{bytes64, le64, u64_round_trips, Eui64};

verus! {

/// A 128-bit key.
///
/// A newtype whose `Debug` redacts, because a key is the credential for a whole
/// network and `[u8; 16]` prints itself in full anywhere a struct containing it
/// is logged, traced, or put in an error. That is a leak no amount of care at
/// the call sites prevents, so the type prevents it.
#[derive(Clone, Copy, PartialEq, Eq, Hash)]
pub struct SecurityKey([u8; 16]);

impl View for SecurityKey {
    type V = Seq<u8>;

    closed spec fn view(&self) -> Seq<u8> {
        self.0@
    }
}

/// How many bytes a key has.
pub const KEY_LEN: usize = 16;

impl SecurityKey {
    /// The well-known Zigbee 3.0 default trust-centre link key.
    ///
    /// `ZigBeeAlliance09` in ASCII. Public by design and specified: a Zigbee
    /// 3.0 device that ships without an install code uses it to protect the one
    /// exchange in which it is given the real network key. It is not a secret,
    /// and the security it provides is that the window in which it is accepted
    /// is short and operator-initiated.
    pub fn zigbee_alliance_09() -> (res: Self)
        ensures
            res@ == seq![
                0x5au8, 0x69, 0x67, 0x42, 0x65, 0x65, 0x41, 0x6c,
                0x6c, 0x69, 0x61, 0x6e, 0x63, 0x65, 0x30, 0x39,
            ],
    {
        let res = SecurityKey(
            [
                0x5a, 0x69, 0x67, 0x42, 0x65, 0x65, 0x41, 0x6c,
                0x6c, 0x69, 0x61, 0x6e, 0x63, 0x65, 0x30, 0x39,
            ],
        );
        proof {
            assert(res@ =~= seq![
                0x5au8, 0x69, 0x67, 0x42, 0x65, 0x65, 0x41, 0x6c,
                0x6c, 0x69, 0x61, 0x6e, 0x63, 0x65, 0x30, 0x39,
            ]);
        }
        res
    }

    /// Wraps raw key bytes.
    pub fn new(bytes: [u8; 16]) -> (res: Self)
        ensures
            res@ == bytes@,
    {
        SecurityKey(bytes)
    }

    /// The key material.
    ///
    /// Named `expose` so every place a key can escape is easy to find.
    pub fn expose(&self) -> (res: &[u8; 16])
        ensures
            res@ == self@,
    {
        &self.0
    }

    /// What a key shows of itself in a debug rendering: nothing.
    pub fn redacted(&self) -> (res: &'static str)
        ensures
            res@ == "SecurityKey(redacted)"@,
    {
        "SecurityKey(redacted)"
    }

    /// What a key shows of itself in a message: nothing.
    pub fn to_string(&self) -> (res: String)
        ensures
            res@ == "<redacted>"@,
    {
        String::from_str("<redacted>")
    }
}

impl core::fmt::Debug for SecurityKey {
    /// Redacted, also inside a structure that holds a key.
    fn fmt(&self, f: &mut core::fmt::Formatter<'_>) -> core::fmt::Result {
        f.write_str(self.redacted())
    }
}

impl EzspEncode for SecurityKey {
    open spec fn encoding(&self, version: ProtocolVersion) -> Seq<u8> {
        self@
    }

    open spec fn encode_failure(&self, version: ProtocolVersion) -> Option<EzspError> {
        None
    }

    fn encode(&self, out: &mut Writer) -> (res: Result<(), EzspError>) {
        out.bytes(self.0.as_slice());
        proof {
            assert(self.encode_failure(out.target()) is None);
            assert(out@ =~= old(out)@ + self.encoding(old(out).target()));
        }
        Ok(())
    }
}

impl EzspDecode for SecurityKey {
    open spec fn extent(bytes: Seq<u8>, version: ProtocolVersion) -> Extent {
        field(bytes.len(), 0, KEY_LEN as nat, Extent::Whole(KEY_LEN as nat))
    }

    open spec fn read_from(self, bytes: Seq<u8>, version: ProtocolVersion) -> bool {
        self@ == bytes.take(KEY_LEN as int)
    }

    fn decode(input: &mut Reader<'_>) -> (res: Result<Self, EzspError>) {
        Ok(SecurityKey::new(input.array::<16>()?))
    }
}

/// A key reads back byte for byte, and fewer than sixteen bytes are none.
pub proof fn keys_round_trip(key: SecurityKey, version: ProtocolVersion, behind: Seq<u8>)
    ensures
        key@.len() == KEY_LEN,
        SecurityKey::extent(key.encoding(version) + behind, version) == Extent::Whole(
            KEY_LEN as nat,
        ),
        key.read_from(key.encoding(version) + behind, version),
        forall|bytes: Seq<u8>|
            (#[trigger] SecurityKey::extent(bytes, version)) is Whole <==> bytes.len() >= KEY_LEN,
{
    assert((key.encoding(version) + behind).take(KEY_LEN as int) =~= key@);
}

/// Flags for a security-manager call.
#[derive(Debug, Clone, Copy, PartialEq, Eq, Structural)]
pub struct SecurityManFlags(pub u8);

impl Default for SecurityManFlags {
    fn default() -> (res: Self)
        ensures
            res == SecurityManFlags(SecurityManFlags::NONE),
    {
        SecurityManFlags(SecurityManFlags::NONE)
    }
}

impl SecurityManFlags {
    /// No flags.
    pub const NONE: u8 = 0x00;

    /// The `key_index` field is meaningful.
    pub const KEY_INDEX_IS_VALID: u8 = 0x01;

    /// The `eui64` field is meaningful.
    pub const EUI_IS_VALID: u8 = 0x02;
}

/// Which key the security manager should act on.
#[derive(Debug, Clone, Copy, PartialEq, Eq, Structural, PartialOrd, Ord, Hash)]
pub struct SecurityKeyType(pub u8);

impl SecurityKeyType {
    /// The current network key.
    pub const NETWORK: u8 = 0x01;

    /// The trust centre link key.
    pub const TC_LINK: u8 = 0x02;
}

/// Which key to export, and any qualifiers on it.
///
/// The wire layout is fixed even though most fields are unused for any given
/// key type -- `psa_key_alg_permission` in particular is four bytes that a
/// caller reading the network key has no reason to think about, but omitting
/// them shifts the status that follows.
#[derive(Debug, Clone, Copy, PartialEq, Eq, Structural)]
pub struct SecurityManContext {
    /// Which key.
    pub core_key_type: SecurityKeyType,
    /// Index into a key table, when the type uses one.
    pub key_index: u8,
    /// Derived key type. `0` for none.
    pub derived_type: u8,
    /// The device the key belongs to, where that applies.
    pub eui64: Eui64,
    /// Which network, on a multi-network build. `0` otherwise.
    pub multi_network_index: u8,
    /// Which of the fields above are meaningful.
    pub flags: SecurityManFlags,
    /// PSA algorithm permissions. `0` unless you have a reason.
    pub psa_key_alg_permission: u32,
}

/// How many bytes a security-manager context occupies.
pub const SECURITY_MAN_CONTEXT_LEN: usize = 17;

impl SecurityManContext {
    /// A context that reads the current network key.
    #[must_use]
    pub fn network_key() -> (res: Self)
        ensures
            res == (SecurityManContext {
                core_key_type: SecurityKeyType(SecurityKeyType::NETWORK),
                key_index: 0,
                derived_type: 0,
                eui64: Eui64(0),
                multi_network_index: 0,
                flags: SecurityManFlags(SecurityManFlags::NONE),
                psa_key_alg_permission: 0,
            }),
    {
        SecurityManContext {
            core_key_type: SecurityKeyType(SecurityKeyType::NETWORK),
            key_index: 0,
            derived_type: 0,
            eui64: Eui64::new(0),
            multi_network_index: 0,
            flags: SecurityManFlags(SecurityManFlags::NONE),
            psa_key_alg_permission: 0,
        }
    }

    /// The context that `bytes` begin with.
    pub open spec fn at_start_of(bytes: Seq<u8>) -> SecurityManContext {
        SecurityManContext {
            core_key_type: SecurityKeyType(bytes[0]),
            key_index: bytes[1],
            derived_type: bytes[2],
            eui64: Eui64(le64(bytes, 3)),
            multi_network_index: bytes[11],
            flags: SecurityManFlags(bytes[12]),
            psa_key_alg_permission: le32(bytes, 13),
        }
    }
}

impl EzspEncode for SecurityManContext {
    open spec fn encoding(&self, version: ProtocolVersion) -> Seq<u8> {
        seq![self.core_key_type.0, self.key_index, self.derived_type] + bytes64(self.eui64.0)
            + seq![self.multi_network_index, self.flags.0] + bytes32(self.psa_key_alg_permission)
    }

    open spec fn encode_failure(&self, version: ProtocolVersion) -> Option<EzspError> {
        None
    }

    fn encode(&self, out: &mut Writer) -> (res: Result<(), EzspError>) {
        out.u8(self.core_key_type.0);
        out.u8(self.key_index);
        out.u8(self.derived_type);
        self.eui64.encode(out)?;
        out.u8(self.multi_network_index);
        out.u8(self.flags.0);
        out.u32(self.psa_key_alg_permission);
        proof {
            assert(out@ =~= old(out)@ + self.encoding(old(out).target()));
        }
        Ok(())
    }
}

impl EzspDecode for SecurityManContext {
    open spec fn extent(bytes: Seq<u8>, version: ProtocolVersion) -> Extent {
        let n = bytes.len();
        field(n, 0, 1, field(n, 1, 1, field(n, 2, 1, field(n, 3, 8, field(n, 11, 1, field(
            n,
            12,
            1,
            field(n, 13, 4, Extent::Whole(SECURITY_MAN_CONTEXT_LEN as nat)),
        ))))))
    }

    open spec fn read_from(self, bytes: Seq<u8>, version: ProtocolVersion) -> bool {
        self == SecurityManContext::at_start_of(bytes)
    }

    fn decode(input: &mut Reader<'_>) -> (res: Result<Self, EzspError>) {
        broadcast use {skips_add, skips_nothing};

        Ok(
            SecurityManContext {
                core_key_type: SecurityKeyType(input.u8()?),
                key_index: input.u8()?,
                derived_type: input.u8()?,
                eui64: Eui64::decode(input)?,
                multi_network_index: input.u8()?,
                flags: SecurityManFlags(input.u8()?),
                psa_key_alg_permission: input.u32()?,
            },
        )
    }
}

/// A context is seventeen bytes, whatever the key type uses of them, and reads
/// back as what was written.
pub proof fn contexts_round_trip(
    context: SecurityManContext,
    version: ProtocolVersion,
    behind: Seq<u8>,
)
    ensures
        context.encoding(version).len() == SECURITY_MAN_CONTEXT_LEN,
        SecurityManContext::extent(context.encoding(version) + behind, version) == Extent::Whole(
            SECURITY_MAN_CONTEXT_LEN as nat,
        ),
        SecurityManContext::at_start_of(context.encoding(version) + behind) == context,
        forall|bytes: Seq<u8>|
            (#[trigger] SecurityManContext::extent(bytes, version)) is Whole <==> bytes.len()
                >= SECURITY_MAN_CONTEXT_LEN,
{
    let bytes = context.encoding(version) + behind;
    u64_round_trips(context.eui64.0, behind);
    let address = bytes64(context.eui64.0) + behind;
    assert(le32(bytes, 3) == le32(address, 0));
    assert(le32(bytes, 7) == le32(address, 4));
    u32_round_trips(context.psa_key_alg_permission, behind);
    assert(le32(bytes, 13) == le32(bytes32(context.psa_key_alg_permission) + behind, 0));
}

/// Flags for `setInitialSecurityState`.
#[derive(Debug, Clone, Copy, PartialEq, Eq, Structural)]
pub struct InitialSecurityBitmask(pub u16);

impl InitialSecurityBitmask {
    /// A trust centre global link key is in use.
    pub const TRUST_CENTER_GLOBAL_LINK_KEY: u16 = 0x0004;

    /// The trust centre uses a hashed link key.
    ///
    /// Note this is `0x0084`, not a single bit: it implies the flags below it.
    /// Writing `0x0080` here, on the assumption that every entry in a bitmask
    /// is one bit, silently drops part of the configuration.
    pub const TRUST_CENTER_USES_HASHED_LINK_KEY: u16 = 0x0084;

    /// The preconfigured key is a network key, not a link key.
    pub const PRECONFIGURED_NETWORK_KEY_MODE: u16 = 0x0008;

    /// `preconfigured_key` is set.
    pub const HAVE_PRECONFIGURED_KEY: u16 = 0x0100;

    /// `network_key` is set.
    pub const HAVE_NETWORK_KEY: u16 = 0x0200;

    /// Ask for a link key when joining.
    pub const GET_LINK_KEY_WHEN_JOINING: u16 = 0x0400;

    /// Require the network key to arrive encrypted.
    pub const REQUIRE_ENCRYPTED_KEY: u16 = 0x0800;

    /// Do not reset frame counters.
    ///
    /// Set this when restoring a network rather than creating one. Resetting
    /// the counters on a network that already has joined devices makes every
    /// one of them reject the coordinator's frames as replays.
    pub const NO_FRAME_COUNTER_RESET: u16 = 0x1000;

    /// Combines two bitmasks.
    #[must_use]
    pub fn union(self, other: Self) -> (res: Self)
        ensures
            res == InitialSecurityBitmask(self.0 | other.0),
    {
        InitialSecurityBitmask(self.0 | other.0)
    }

    /// Whether every bit in `other` is set.
    #[must_use]
    pub fn contains(self, other: Self) -> (res: bool)
        ensures
            res == (self.0 & other.0 == other.0),
    {
        self.0 & other.0 == other.0
    }
}

/// The security configuration a coordinator forms a network with.
#[derive(Debug, Clone, Copy, PartialEq, Eq)]
pub struct InitialSecurityState {
    /// Which of the fields below are meaningful, and how the stack behaves.
    pub bitmask: InitialSecurityBitmask,
    /// The preconfigured link key.
    pub preconfigured_key: SecurityKey,
    /// The network key.
    pub network_key: SecurityKey,
    /// The network key's sequence number.
    pub network_key_sequence_number: u8,
    /// The trust centre's address, when one is preconfigured.
    pub preconfigured_trust_center_eui64: Eui64,
}

impl EzspEncode for InitialSecurityState {
    open spec fn encoding(&self, version: ProtocolVersion) -> Seq<u8> {
        bytes16(self.bitmask.0) + self.preconfigured_key@ + self.network_key@ + seq![
            self.network_key_sequence_number,
        ] + bytes64(self.preconfigured_trust_center_eui64.0)
    }

    open spec fn encode_failure(&self, version: ProtocolVersion) -> Option<EzspError> {
        None
    }

    fn encode(&self, out: &mut Writer) -> (res: Result<(), EzspError>) {
        out.u16(self.bitmask.0);
        self.preconfigured_key.encode(out)?;
        self.network_key.encode(out)?;
        out.u8(self.network_key_sequence_number);
        self.preconfigured_trust_center_eui64.encode(out)?;
        proof {
            assert(out@ =~= old(out)@ + self.encoding(old(out).target()));
        }
        Ok(())
    }
}

} // verus!
