//! Typed EZSP commands.
//!
//! # How a command is defined
//!
//! A command is a request type, a response type, a frame id, and the version
//! range it exists in. The [`Command`] trait ties those together so adding one
//! is a small, uniform piece of work and the plumbing cannot drift per command.
//!
//! Every command below carries, in its documentation:
//!
//! * its frame id
//! * the EZSP versions it applies to, where that matters
//! * whether it has been confirmed against real hardware
//!
//! That last line is the important one. "Implemented" and "seen to work on a
//! device" are different claims, and conflating them is how a library acquires
//! commands nobody has ever successfully sent.

use vstd::prelude::*;
use vstd::slice::slice_to_vec;

use crate::ezsp::codec::{
    bytes16, field, le16, le32, prefixed_at, prefixed_bytes, prefixed_failure, prefixed_field,
    skips_add, skips_nothing, Extent, EzspDecode, EzspEncode, Reader, Writer,
};
use crate::ezsp::error::EzspError;
use crate::ezsp::frame::FrameId;
use crate::ezsp::version::ProtocolVersion;
use crate::types::aps::{ApsFrame, UnicastType};
use crate::types::network::{
    bytes64, le64, ConfigId, Decision, Eui64, NetworkInitBitmask, NetworkParameters, NetworkStatus,
    NodeId, PolicyId, ValueId,
};
use crate::types::security::{
    keys_round_trip, InitialSecurityState, SecurityKey, SecurityManContext,
    SecurityManFlags, KEY_LEN,
};
use crate::types::status::SlStatus;

verus! {

/// One EZSP command.
pub trait Command: EzspEncode {
    /// The decoded answer.
    type Response: EzspDecode;

    /// The frame id on the wire, as a raw number.
    const ID: u16;

    /// Whether the negotiated version has this command.
    ///
    /// Defaults to "any version this crate speaks". Overridden by commands
    /// that came or went at a version boundary, so using one outside its range
    /// is a typed error rather than a frame the NCP silently ignores.
    fn is_available(version: ProtocolVersion) -> (res: bool)
        default_ensures
            res == version.supported(),
    {
        version.is_supported()
    }
}

/// Whether a command may answer that a version has it (`answer`), or lacks it.
pub open spec fn may_offer<C: Command>(version: ProtocolVersion, answer: bool) -> bool {
    call_ensures(C::is_available, (version,), answer)
}

/// A message tag as a send command carries it: only its low byte below EZSP
/// 14.
pub open spec fn tag_bytes(tag: u16, version: ProtocolVersion) -> Seq<u8> {
    if version.wide() {
        bytes16(tag)
    } else {
        seq![(tag % 0x100) as u8]
    }
}

/// Writes a message tag at the width the version uses.
fn write_tag(out: &mut Writer, tag: u16)
    ensures
        final(out)@ == old(out)@ + tag_bytes(tag, old(out).target()),
        final(out).target() == old(out).target(),
{
    if out.version().has_wide_message_tag() {
        out.u16(tag);
    } else {
        // Truncated deliberately, not by accident: below EZSP 14 the field
        // is one byte, and a tag that does not fit simply cannot be
        // distinguished by this firmware.
        out.u8((tag % 0x100) as u8);
    }
}

/// `version` — negotiate the protocol version. Frame id `0x0000`.
///
/// Always the first command sent, and the only one that may use the legacy
/// header: the extended format cannot be used before the version it belongs
/// to has been agreed.
///
/// **Only the first one.** A `version` command sent in the legacy format
/// *after* negotiation makes the NCP forget the negotiated version: every
/// extended command afterwards is answered `INVALID_COMMAND` with
/// `ERROR_VERSION_NOT_SET`. Found on hardware, and the reason the header
/// format is chosen by the connection rather than by the command.
///
/// Hardware: confirmed (EZSP 13, `EmberZNet` 7.4.4).
#[derive(Debug, Clone, Copy, PartialEq, Eq, Structural)]
pub struct Version {
    /// The version the host would like to speak.
    pub desired: ProtocolVersion,
}

/// What the NCP answered to `version`.
#[derive(Debug, Clone, Copy, PartialEq, Eq, Structural)]
pub struct VersionResponse {
    /// The version the NCP will actually speak. Everything after this is
    /// encoded for it, whether or not it is what was asked for.
    pub protocol_version: ProtocolVersion,
    /// Which stack: 2 is `EmberZNet` mesh.
    pub stack_type: u8,
    /// The stack's own version number.
    pub stack_version: u16,
}

impl EzspEncode for Version {
    open spec fn encoding(&self, version: ProtocolVersion) -> Seq<u8> {
        seq![self.desired.0]
    }

    open spec fn encode_failure(&self, version: ProtocolVersion) -> Option<EzspError> {
        None
    }

    fn encode(&self, out: &mut Writer) -> (res: Result<(), EzspError>) {
        out.u8(self.desired.raw());
        Ok(())
    }
}

impl EzspDecode for VersionResponse {
    open spec fn extent(bytes: Seq<u8>, version: ProtocolVersion) -> Extent {
        let n = bytes.len();
        field(n, 0, 1, field(n, 1, 1, field(n, 2, 2, Extent::Whole(4))))
    }

    open spec fn read_from(self, bytes: Seq<u8>, version: ProtocolVersion) -> bool {
        self == (VersionResponse {
            protocol_version: ProtocolVersion(bytes[0]),
            stack_type: bytes[1],
            stack_version: le16(bytes, 2),
        })
    }

    fn decode(input: &mut Reader<'_>) -> (res: Result<Self, EzspError>) {
        broadcast use {skips_add, skips_nothing};

        Ok(
            VersionResponse {
                protocol_version: ProtocolVersion::new(input.u8()?),
                stack_type: input.u8()?,
                stack_version: input.u16()?,
            },
        )
    }
}

impl Command for Version {
    type Response = VersionResponse;

    const ID: u16 = FrameId::VERSION;

    /// Available at every version by definition: it is how the version is
    /// discovered, so refusing it on an unsupported version would make an
    /// unknown NCP undiagnosable.
    fn is_available(version: ProtocolVersion) -> (res: bool)
        ensures
            res,
    {
        true
    }
}

/// `getEui64` — the NCP's own permanent address. Frame id `0x0026`.
///
/// Hardware: confirmed (EZSP 13).
#[derive(Debug, Clone, Copy, PartialEq, Eq)]
pub struct GetEui64;

/// The NCP's address.
#[derive(Debug, Clone, Copy, PartialEq, Eq, Structural)]
pub struct GetEui64Response {
    /// The address.
    pub eui64: Eui64,
}

impl EzspEncode for GetEui64 {
    open spec fn encoding(&self, version: ProtocolVersion) -> Seq<u8> {
        seq![]
    }

    open spec fn encode_failure(&self, version: ProtocolVersion) -> Option<EzspError> {
        None
    }

    fn encode(&self, out: &mut Writer) -> (res: Result<(), EzspError>) {
        proof {
            assert(out@ =~= old(out)@ + self.encoding(old(out).target()));
        }
        Ok(())
    }
}

impl EzspDecode for GetEui64Response {
    open spec fn extent(bytes: Seq<u8>, version: ProtocolVersion) -> Extent {
        Eui64::extent(bytes, version)
    }

    open spec fn read_from(self, bytes: Seq<u8>, version: ProtocolVersion) -> bool {
        self.eui64 == Eui64(le64(bytes, 0))
    }

    fn decode(input: &mut Reader<'_>) -> (res: Result<Self, EzspError>) {
        Ok(GetEui64Response { eui64: Eui64::decode(input)? })
    }
}

impl Command for GetEui64 {
    type Response = GetEui64Response;

    const ID: u16 = FrameId::GET_EUI64;
}

/// `networkInit` — resume a network held in the NCP's tokens. Frame id `0x0017`.
///
/// Not optional at startup, and not merely an optimisation: EZSP reports "no
/// network" from `networkState` until this has run, *even when a network is
/// stored*. A host that reads that and forms a new network destroys the
/// existing one and orphans every joined device.
///
/// Hardware: confirmed (EZSP 13).
#[derive(Debug, Clone, Copy, PartialEq, Eq)]
pub struct NetworkInit {
    /// Initialisation flags.
    pub bitmask: NetworkInitBitmask,
}

/// Whether a stored network was resumed.
#[derive(Debug, Clone, Copy, PartialEq, Eq)]
pub struct NetworkInitResponse {
    /// `OK` when a network was resumed; a failure status when there was none.
    /// The distinction is the authoritative answer to "does this NCP have a
    /// network", and is more reliable than `networkState`.
    pub status: SlStatus,
}

impl EzspEncode for NetworkInit {
    open spec fn encoding(&self, version: ProtocolVersion) -> Seq<u8> {
        bytes16(self.bitmask.0)
    }

    open spec fn encode_failure(&self, version: ProtocolVersion) -> Option<EzspError> {
        None
    }

    fn encode(&self, out: &mut Writer) -> (res: Result<(), EzspError>) {
        self.bitmask.encode(out)?;
        Ok(())
    }
}

impl EzspDecode for NetworkInitResponse {
    open spec fn extent(bytes: Seq<u8>, version: ProtocolVersion) -> Extent {
        SlStatus::extent(bytes, version)
    }

    open spec fn read_from(self, bytes: Seq<u8>, version: ProtocolVersion) -> bool {
        self.status == SlStatus::at(bytes, 0, version)
    }

    fn decode(input: &mut Reader<'_>) -> (res: Result<Self, EzspError>) {
        Ok(NetworkInitResponse { status: SlStatus::decode(input)? })
    }
}

impl Command for NetworkInit {
    type Response = NetworkInitResponse;

    const ID: u16 = FrameId::NETWORK_INIT;
}

/// `permitJoining` — open the network for joining. Frame id `0x0022`.
///
/// This opens the MAC association window and nothing more. Whether a device is
/// *admitted*, and whether it is given the network key, is decided by the
/// trust-centre policy — so `permitJoining` alone produces a window in which
/// devices try and are silently refused. A Zigbee 3.0 device additionally
/// needs a transient commissioning key in place; see [`ImportTransientKey`].
///
/// Hardware: not yet confirmed.
#[derive(Debug, Clone, Copy, PartialEq, Eq, Structural)]
pub struct PermitJoining {
    /// How long to stay open, in seconds.
    ///
    /// Zero closes the window. 255 means *forever* in the protocol, which is a
    /// footgun rather than a feature — a network left permanently open admits
    /// anything that asks — so [`Self::for_seconds`] clamps to 254 and this
    /// field is only 255 if a caller writes it deliberately.
    pub duration: u8,
}

impl PermitJoining {
    /// The largest duration that is not "forever".
    pub const MAX_DURATION: u8 = 254;

    /// Opens the window for `seconds`, clamped away from the forever value.
    ///
    /// A duration longer than the maximum is clamped rather than rejected: the
    /// caller asked for "a long time", and 254 seconds is that answer, where
    /// 255 is a different and far more dangerous one.
    pub fn for_seconds(seconds: u8) -> (res: Self)
        ensures
            res.duration == if seconds > PermitJoining::MAX_DURATION {
                PermitJoining::MAX_DURATION
            } else {
                seconds
            },
            res.duration != 255,
    {
        PermitJoining {
            duration: if seconds > PermitJoining::MAX_DURATION {
                PermitJoining::MAX_DURATION
            } else {
                seconds
            },
        }
    }

    /// Closes the window.
    pub fn close() -> (res: Self)
        ensures
            res == (PermitJoining { duration: 0 }),
    {
        PermitJoining { duration: 0 }
    }
}

/// Whether the window changed.
#[derive(Debug, Clone, Copy, PartialEq, Eq)]
pub struct PermitJoiningResponse {
    /// The NCP's answer.
    pub status: SlStatus,
}

impl EzspEncode for PermitJoining {
    open spec fn encoding(&self, version: ProtocolVersion) -> Seq<u8> {
        seq![self.duration]
    }

    open spec fn encode_failure(&self, version: ProtocolVersion) -> Option<EzspError> {
        None
    }

    fn encode(&self, out: &mut Writer) -> (res: Result<(), EzspError>) {
        out.u8(self.duration);
        Ok(())
    }
}

impl EzspDecode for PermitJoiningResponse {
    open spec fn extent(bytes: Seq<u8>, version: ProtocolVersion) -> Extent {
        SlStatus::extent(bytes, version)
    }

    open spec fn read_from(self, bytes: Seq<u8>, version: ProtocolVersion) -> bool {
        self.status == SlStatus::at(bytes, 0, version)
    }

    fn decode(input: &mut Reader<'_>) -> (res: Result<Self, EzspError>) {
        Ok(PermitJoiningResponse { status: SlStatus::decode(input)? })
    }
}

impl Command for PermitJoining {
    type Response = PermitJoiningResponse;

    const ID: u16 = FrameId::PERMIT_JOINING;
}

/// `setConfigurationValue` — set a stack configuration item. Frame id `0x0053`.
///
/// Must be sent before the network comes up; EZSP refuses afterwards.
///
/// Hardware: confirmed (EZSP 13).
#[derive(Debug, Clone, Copy, PartialEq, Eq)]
pub struct SetConfigurationValue {
    /// Which item.
    pub config_id: ConfigId,
    /// The value.
    pub value: u16,
}

/// Whether the item was set.
#[derive(Debug, Clone, Copy, PartialEq, Eq)]
pub struct SetConfigurationValueResponse {
    /// The NCP's answer.
    pub status: SlStatus,
}

impl EzspEncode for SetConfigurationValue {
    open spec fn encoding(&self, version: ProtocolVersion) -> Seq<u8> {
        seq![self.config_id.0] + bytes16(self.value)
    }

    open spec fn encode_failure(&self, version: ProtocolVersion) -> Option<EzspError> {
        None
    }

    fn encode(&self, out: &mut Writer) -> (res: Result<(), EzspError>) {
        out.u8(self.config_id.0);
        out.u16(self.value);
        proof {
            assert(out@ =~= old(out)@ + self.encoding(old(out).target()));
        }
        Ok(())
    }
}

impl EzspDecode for SetConfigurationValueResponse {
    open spec fn extent(bytes: Seq<u8>, version: ProtocolVersion) -> Extent {
        SlStatus::extent(bytes, version)
    }

    open spec fn read_from(self, bytes: Seq<u8>, version: ProtocolVersion) -> bool {
        self.status == SlStatus::at(bytes, 0, version)
    }

    fn decode(input: &mut Reader<'_>) -> (res: Result<Self, EzspError>) {
        Ok(SetConfigurationValueResponse { status: SlStatus::decode(input)? })
    }
}

impl Command for SetConfigurationValue {
    type Response = SetConfigurationValueResponse;

    const ID: u16 = FrameId::SET_CONFIGURATION_VALUE;
}

/// `setPolicy` — set a stack decision policy. Frame id `0x0055`.
///
/// The trust-centre policy is the one that decides whether any device can
/// join. See [`Decision`] for why its values are named as individual bits
/// rather than as an enum of composites.
///
/// Hardware: confirmed (EZSP 13) — a device joins with the trust-centre policy
/// set to `ALLOW_JOINS | ALLOW_UNSECURED_REJOINS` and does not with zero.
#[derive(Debug, Clone, Copy, PartialEq, Eq)]
pub struct SetPolicy {
    /// Which policy.
    pub policy_id: PolicyId,
    /// The decision.
    pub decision: Decision,
}

/// Whether the policy was set.
#[derive(Debug, Clone, Copy, PartialEq, Eq)]
pub struct SetPolicyResponse {
    /// The NCP's answer.
    pub status: SlStatus,
}

impl EzspEncode for SetPolicy {
    open spec fn encoding(&self, version: ProtocolVersion) -> Seq<u8> {
        seq![self.policy_id.0, self.decision.0]
    }

    open spec fn encode_failure(&self, version: ProtocolVersion) -> Option<EzspError> {
        None
    }

    fn encode(&self, out: &mut Writer) -> (res: Result<(), EzspError>) {
        out.u8(self.policy_id.0);
        out.u8(self.decision.0);
        proof {
            assert(out@ =~= old(out)@ + self.encoding(old(out).target()));
        }
        Ok(())
    }
}

impl EzspDecode for SetPolicyResponse {
    open spec fn extent(bytes: Seq<u8>, version: ProtocolVersion) -> Extent {
        SlStatus::extent(bytes, version)
    }

    open spec fn read_from(self, bytes: Seq<u8>, version: ProtocolVersion) -> bool {
        self.status == SlStatus::at(bytes, 0, version)
    }

    fn decode(input: &mut Reader<'_>) -> (res: Result<Self, EzspError>) {
        Ok(SetPolicyResponse { status: SlStatus::decode(input)? })
    }
}

impl Command for SetPolicy {
    type Response = SetPolicyResponse;

    const ID: u16 = FrameId::SET_POLICY;
}

/// `addEndpoint` — register an application endpoint. Frame id `0x0002`.
///
/// Must happen before the network comes up. Without it the NCP has nowhere to
/// deliver application traffic and answers an active-endpoint request with an
/// empty list, so the coordinator looks like a node with no functionality.
///
/// Hardware: confirmed (EZSP 13).
#[derive(Debug, Clone, PartialEq, Eq)]
pub struct AddEndpoint {
    /// The endpoint number.
    pub endpoint: u8,
    /// Application profile.
    pub profile_id: u16,
    /// Device id within the profile.
    pub device_id: u16,
    /// Device version.
    pub app_flags: u8,
    /// Clusters this endpoint serves.
    pub input_clusters: Vec<u16>,
    /// Clusters this endpoint uses.
    pub output_clusters: Vec<u16>,
}

/// Whether the endpoint was registered.
#[derive(Debug, Clone, Copy, PartialEq, Eq)]
pub struct AddEndpointResponse {
    /// The NCP's answer.
    pub status: SlStatus,
}

/// A list of cluster ids as it goes on the wire.
pub open spec fn cluster_bytes(clusters: Seq<u16>) -> Seq<u8>
    decreases clusters.len(),
{
    if clusters.len() == 0 {
        seq![]
    } else {
        cluster_bytes(clusters.drop_last()) + bytes16(clusters.last())
    }
}

/// Why a list cannot be counted by one byte, if it cannot.
pub open spec fn count_failure(clusters: Seq<u16>) -> Option<EzspError> {
    if clusters.len() > 255 {
        Some(EzspError::PayloadTooLong { length: clusters.len() as usize, limit: 255 })
    } else {
        None
    }
}

/// The count of a list, as one byte.
fn count(clusters: &Vec<u16>) -> (res: Result<u8, EzspError>)
    ensures
        match res {
            Ok(count) => count == clusters@.len() && count_failure(clusters@) is None,
            Err(error) => count_failure(clusters@) == Some(error),
        },
{
    if clusters.len() > 255 {
        Err(EzspError::PayloadTooLong { length: clusters.len(), limit: 255 })
    } else {
        Ok(clusters.len() as u8)
    }
}

/// Writes a list of cluster ids.
fn write_clusters(out: &mut Writer, clusters: &Vec<u16>)
    ensures
        final(out)@ == old(out)@ + cluster_bytes(clusters@),
        final(out).target() == old(out).target(),
{
    let mut i: usize = 0;
    proof {
        assert(out@ =~= old(out)@ + cluster_bytes(clusters@.take(0)));
    }
    while i < clusters.len()
        invariant
            i <= clusters@.len(),
            out@ == old(out)@ + cluster_bytes(clusters@.take(i as int)),
            out.target() == old(out).target(),
        decreases clusters@.len() - i,
    {
        out.u16(clusters[i]);
        proof {
            assert(clusters@.take(i + 1).drop_last() =~= clusters@.take(i as int));
            assert(out@ =~= old(out)@ + cluster_bytes(clusters@.take(i + 1)));
        }
        i += 1;
    }
    proof {
        assert(clusters@.take(i as int) =~= clusters@);
    }
}

impl AddEndpoint {
    /// The fields ahead of the cluster counts.
    pub open spec fn preamble(&self) -> Seq<u8> {
        seq![self.endpoint] + bytes16(self.profile_id) + bytes16(self.device_id) + seq![
            self.app_flags,
        ]
    }
}

impl EzspEncode for AddEndpoint {
    open spec fn encoding(&self, version: ProtocolVersion) -> Seq<u8> {
        if self.input_clusters@.len() > 255 || self.output_clusters@.len() > 255 {
            self.preamble()
        } else {
            self.preamble() + seq![
                self.input_clusters@.len() as u8,
                self.output_clusters@.len() as u8,
            ] + cluster_bytes(self.input_clusters@) + cluster_bytes(self.output_clusters@)
        }
    }

    open spec fn encode_failure(&self, version: ProtocolVersion) -> Option<EzspError> {
        match count_failure(self.input_clusters@) {
            Some(error) => Some(error),
            None => count_failure(self.output_clusters@),
        }
    }

    fn encode(&self, out: &mut Writer) -> (res: Result<(), EzspError>) {
        out.u8(self.endpoint);
        out.u16(self.profile_id);
        out.u16(self.device_id);
        out.u8(self.app_flags);
        proof {
            assert(out@ =~= old(out)@ + self.preamble());
        }
        // Both counts first, then both lists. Interleaving them -- count,
        // list, count, list -- is the natural guess and produces a frame the
        // NCP rejects.
        let inputs: u8 = count(&self.input_clusters)?;
        let outputs: u8 = count(&self.output_clusters)?;
        out.u8(inputs);
        out.u8(outputs);
        write_clusters(out, &self.input_clusters);
        write_clusters(out, &self.output_clusters);
        proof {
            assert(out@ =~= old(out)@ + self.encoding(old(out).target()));
        }
        Ok(())
    }
}

impl EzspDecode for AddEndpointResponse {
    open spec fn extent(bytes: Seq<u8>, version: ProtocolVersion) -> Extent {
        SlStatus::extent(bytes, version)
    }

    open spec fn read_from(self, bytes: Seq<u8>, version: ProtocolVersion) -> bool {
        self.status == SlStatus::at(bytes, 0, version)
    }

    fn decode(input: &mut Reader<'_>) -> (res: Result<Self, EzspError>) {
        Ok(AddEndpointResponse { status: SlStatus::decode(input)? })
    }
}

impl Command for AddEndpoint {
    type Response = AddEndpointResponse;

    const ID: u16 = FrameId::ADD_ENDPOINT;
}

/// `sendUnicast` — send an APS frame to one device. Frame id `0x0034`.
///
/// The message tag is **one byte below EZSP 14 and two at or above it**. Since
/// the payload follows it, the wrong width shifts every remaining byte and the
/// NCP reads the payload's first byte as part of the tag.
///
/// Hardware: confirmed (EZSP 13).
#[derive(Debug, Clone, PartialEq, Eq)]
pub struct SendUnicast {
    /// How the destination is addressed.
    pub unicast_type: UnicastType,
    /// The destination, or an index into a table depending on the type.
    pub index_or_destination: u16,
    /// The APS header.
    pub aps_frame: ApsFrame,
    /// A tag the matching `messageSent` callback will echo.
    pub message_tag: u16,
    /// The application payload.
    pub message: Vec<u8>,
}

/// The NCP's acceptance of a unicast.
///
/// Not delivery: the frame is queued, and whether it arrived is reported later
/// by the `messageSent` callback.
#[derive(Debug, Clone, Copy, PartialEq, Eq)]
pub struct SendUnicastResponse {
    /// Whether the NCP accepted it.
    pub status: SlStatus,
    /// The APS sequence the NCP assigned.
    pub aps_sequence: u8,
}

impl EzspEncode for SendUnicast {
    open spec fn encoding(&self, version: ProtocolVersion) -> Seq<u8> {
        seq![self.unicast_type.wire_value()] + bytes16(self.index_or_destination)
            + self.aps_frame.encoding(version) + tag_bytes(self.message_tag, version)
            + prefixed_bytes(self.message@)
    }

    open spec fn encode_failure(&self, version: ProtocolVersion) -> Option<EzspError> {
        prefixed_failure(self.message@)
    }

    fn encode(&self, out: &mut Writer) -> (res: Result<(), EzspError>) {
        self.unicast_type.encode(out)?;
        out.u16(self.index_or_destination);
        self.aps_frame.encode(out)?;
        write_tag(out, self.message_tag);
        let res = out.length_prefixed(self.message.as_slice());
        proof {
            assert(out@ =~= old(out)@ + self.encoding(old(out).target()));
        }
        res
    }
}

impl EzspDecode for SendUnicastResponse {
    open spec fn extent(bytes: Seq<u8>, version: ProtocolVersion) -> Extent {
        SlStatus::extent(bytes, version).and_then(
            field(
                bytes.len(),
                version.status_width(),
                1,
                Extent::Whole(version.status_width() + 1),
            ),
        )
    }

    open spec fn read_from(self, bytes: Seq<u8>, version: ProtocolVersion) -> bool {
        &&& self.status == SlStatus::at(bytes, 0, version)
        &&& self.aps_sequence == bytes[version.status_width() as int]
    }

    fn decode(input: &mut Reader<'_>) -> (res: Result<Self, EzspError>) {
        broadcast use {skips_add, skips_nothing};

        Ok(SendUnicastResponse { status: SlStatus::decode(input)?, aps_sequence: input.u8()? })
    }
}

impl Command for SendUnicast {
    type Response = SendUnicastResponse;

    const ID: u16 = FrameId::SEND_UNICAST;
}

/// `importTransientKey` — install a short-lived commissioning key. Frame id
/// `0x0111`.
///
/// Needed for Zigbee 3.0 joining: a device without an install code protects the
/// one exchange in which it receives the network key with the well-known
/// trust-centre link key, and the NCP must hold that key while the join window
/// is open.
///
/// The trailing flags byte exists **below EZSP 14 only**. Sending it at 14 or
/// above, or omitting it below, produces a frame the NCP answers `OK` to while
/// installing a key parsed from the wrong bytes — after which a device joins
/// and can never finish commissioning.
///
/// Hardware: confirmed (EZSP 13) — a valve commissions with this and rejoins
/// indefinitely without it.
#[derive(Debug, Clone, Copy, PartialEq, Eq)]
pub struct ImportTransientKey {
    /// Which device the key is for. [`Eui64::WILDCARD`] for any.
    pub eui64: Eui64,
    /// The key.
    pub key: SecurityKey,
    /// Flags. Only sent below EZSP 14.
    pub flags: SecurityManFlags,
}

/// Whether the key was installed.
#[derive(Debug, Clone, Copy, PartialEq, Eq)]
pub struct ImportTransientKeyResponse {
    /// The NCP's answer. Always four bytes for this command, at every version.
    pub status: SlStatus,
}

impl EzspEncode for ImportTransientKey {
    open spec fn encoding(&self, version: ProtocolVersion) -> Seq<u8> {
        bytes64(self.eui64.0) + self.key@ + if version.wide() {
            seq![]
        } else {
            seq![self.flags.0]
        }
    }

    open spec fn encode_failure(&self, version: ProtocolVersion) -> Option<EzspError> {
        None
    }

    fn encode(&self, out: &mut Writer) -> (res: Result<(), EzspError>) {
        self.eui64.encode(out)?;
        self.key.encode(out)?;
        if out.version().has_transient_key_flags() {
            out.u8(self.flags.0);
        }
        proof {
            assert(out@ =~= old(out)@ + self.encoding(old(out).target()));
        }
        Ok(())
    }
}

impl EzspDecode for ImportTransientKeyResponse {
    open spec fn extent(bytes: Seq<u8>, version: ProtocolVersion) -> Extent {
        field(bytes.len(), 0, 4, Extent::Whole(4))
    }

    open spec fn read_from(self, bytes: Seq<u8>, version: ProtocolVersion) -> bool {
        self.status == SlStatus(le32(bytes, 0))
    }

    fn decode(input: &mut Reader<'_>) -> (res: Result<Self, EzspError>) {
        // Four bytes regardless of version: this is a security-manager command
        // and returns an `sl_status_t` even on firmware where other commands
        // return a one-byte `EmberStatus`.
        Ok(ImportTransientKeyResponse { status: SlStatus(input.u32()?) })
    }
}

impl Command for ImportTransientKey {
    type Response = ImportTransientKeyResponse;

    const ID: u16 = FrameId::IMPORT_TRANSIENT_KEY;
}

/// `getConfigurationValue` — read one configuration item. Frame id `0x0052`.
///
/// The counterpart to [`SetConfigurationValue`], and worth having for the same
/// reason bringup reads values before writing them: NCP defaults are not what
/// one would expect. `STACK_PROFILE` defaults to `0`, not `2`, and finding that
/// out required reading it back.
///
/// Hardware: confirmed (EZSP 13).
#[derive(Debug, Clone, Copy, PartialEq, Eq)]
pub struct GetConfigurationValue {
    /// Which item.
    pub config_id: ConfigId,
}

/// The value the NCP holds.
#[derive(Debug, Clone, Copy, PartialEq, Eq)]
pub struct GetConfigurationValueResponse {
    /// Whether the item could be read.
    pub status: SlStatus,
    /// The value, meaningful only when `status` is success.
    pub value: u16,
}

impl EzspEncode for GetConfigurationValue {
    open spec fn encoding(&self, version: ProtocolVersion) -> Seq<u8> {
        seq![self.config_id.0]
    }

    open spec fn encode_failure(&self, version: ProtocolVersion) -> Option<EzspError> {
        None
    }

    fn encode(&self, out: &mut Writer) -> (res: Result<(), EzspError>) {
        out.u8(self.config_id.0);
        Ok(())
    }
}

impl EzspDecode for GetConfigurationValueResponse {
    open spec fn extent(bytes: Seq<u8>, version: ProtocolVersion) -> Extent {
        SlStatus::extent(bytes, version).and_then(
            field(
                bytes.len(),
                version.status_width(),
                2,
                Extent::Whole(version.status_width() + 2),
            ),
        )
    }

    open spec fn read_from(self, bytes: Seq<u8>, version: ProtocolVersion) -> bool {
        &&& self.status == SlStatus::at(bytes, 0, version)
        &&& self.value == le16(bytes, version.status_width() as int)
    }

    fn decode(input: &mut Reader<'_>) -> (res: Result<Self, EzspError>) {
        broadcast use {skips_add, skips_nothing};

        Ok(
            GetConfigurationValueResponse {
                status: SlStatus::decode(input)?,
                value: input.u16()?,
            },
        )
    }
}

impl Command for GetConfigurationValue {
    type Response = GetConfigurationValueResponse;

    const ID: u16 = FrameId::GET_CONFIGURATION_VALUE;
}

/// `getValue` — read a variable-length NCP value. Frame id `0x00aa`.
///
/// Distinct from `getConfigurationValue`, which reads a `u16`. This one
/// answers with a byte string, which is how the firmware version string is
/// obtained.
///
/// Hardware: confirmed (EZSP 13) — the version information.
#[derive(Debug, Clone, Copy, PartialEq, Eq)]
pub struct GetValue {
    /// Which value.
    pub value_id: ValueId,
}

/// The bytes the NCP answered with.
#[derive(Debug, Clone, PartialEq, Eq)]
pub struct GetValueResponse {
    /// Whether the value could be read.
    pub status: SlStatus,
    /// The value. Interpretation depends entirely on which value was asked
    /// for, so it is handed back as bytes.
    pub value: Vec<u8>,
}

impl EzspEncode for GetValue {
    open spec fn encoding(&self, version: ProtocolVersion) -> Seq<u8> {
        seq![self.value_id.0]
    }

    open spec fn encode_failure(&self, version: ProtocolVersion) -> Option<EzspError> {
        None
    }

    fn encode(&self, out: &mut Writer) -> (res: Result<(), EzspError>) {
        out.u8(self.value_id.0);
        Ok(())
    }
}

impl EzspDecode for GetValueResponse {
    open spec fn extent(bytes: Seq<u8>, version: ProtocolVersion) -> Extent {
        SlStatus::extent(bytes, version).and_then(
            prefixed_field(bytes, version.status_width()),
        )
    }

    open spec fn read_from(self, bytes: Seq<u8>, version: ProtocolVersion) -> bool {
        &&& self.status == SlStatus::at(bytes, 0, version)
        &&& self.value@ == prefixed_at(bytes, version.status_width() as int)
    }

    fn decode(input: &mut Reader<'_>) -> (res: Result<Self, EzspError>) {
        broadcast use {skips_add, skips_nothing};

        let ghost bytes = input.rest();
        let ghost width = input.target().status_width();
        let status = SlStatus::decode(input)?;
        let value: Vec<u8> = slice_to_vec(input.length_prefixed()?);
        proof {
            assert(prefixed_at(bytes.skip(width as int), 0) =~= prefixed_at(bytes, width as int));
        }
        Ok(GetValueResponse { status, value })
    }
}

impl Command for GetValue {
    type Response = GetValueResponse;

    const ID: u16 = FrameId::GET_VALUE;
}

/// `setManufacturerCode` — declare the manufacturer id the NCP reports.
/// Frame id `0x0015`.
///
/// Appears in the node descriptor a device reads during its interview. The NCP
/// answers with no parameters at all.
///
/// Hardware: confirmed (EZSP 13).
#[derive(Debug, Clone, Copy, PartialEq, Eq)]
pub struct SetManufacturerCode {
    /// The Zigbee Alliance manufacturer id.
    pub code: u16,
}

/// `setManufacturerCode` returns nothing.
#[derive(Debug, Clone, Copy, PartialEq, Eq)]
pub struct SetManufacturerCodeResponse;

impl EzspEncode for SetManufacturerCode {
    open spec fn encoding(&self, version: ProtocolVersion) -> Seq<u8> {
        bytes16(self.code)
    }

    open spec fn encode_failure(&self, version: ProtocolVersion) -> Option<EzspError> {
        None
    }

    fn encode(&self, out: &mut Writer) -> (res: Result<(), EzspError>) {
        out.u16(self.code);
        Ok(())
    }
}

impl EzspDecode for SetManufacturerCodeResponse {
    open spec fn extent(bytes: Seq<u8>, version: ProtocolVersion) -> Extent {
        Extent::Whole(0)
    }

    open spec fn read_from(self, bytes: Seq<u8>, version: ProtocolVersion) -> bool {
        true
    }

    fn decode(input: &mut Reader<'_>) -> (res: Result<Self, EzspError>) {
        broadcast use skips_nothing;

        Ok(SetManufacturerCodeResponse)
    }
}

impl Command for SetManufacturerCode {
    type Response = SetManufacturerCodeResponse;

    const ID: u16 = FrameId::SET_MANUFACTURER_CODE;
}

/// `clearTransientLinkKeys` — forget every transient link key. Frame id
/// `0x006b`.
///
/// The other half of [`ImportTransientKey`]. A transient key is installed to
/// open a commissioning window and cleared when it closes; leaving it in place
/// means the well-known `ZigBeeAlliance09` key stays valid for joining
/// indefinitely, which is the difference between a window and an open door.
///
/// Hardware: confirmed (EZSP 13).
#[derive(Debug, Clone, Copy, PartialEq, Eq)]
pub struct ClearTransientLinkKeys;

/// `clearTransientLinkKeys` returns nothing, not even a status.
#[derive(Debug, Clone, Copy, PartialEq, Eq)]
pub struct ClearTransientLinkKeysResponse;

impl EzspEncode for ClearTransientLinkKeys {
    open spec fn encoding(&self, version: ProtocolVersion) -> Seq<u8> {
        seq![]
    }

    open spec fn encode_failure(&self, version: ProtocolVersion) -> Option<EzspError> {
        None
    }

    fn encode(&self, out: &mut Writer) -> (res: Result<(), EzspError>) {
        proof {
            assert(out@ =~= old(out)@ + self.encoding(old(out).target()));
        }
        Ok(())
    }
}

impl EzspDecode for ClearTransientLinkKeysResponse {
    open spec fn extent(bytes: Seq<u8>, version: ProtocolVersion) -> Extent {
        Extent::Whole(0)
    }

    open spec fn read_from(self, bytes: Seq<u8>, version: ProtocolVersion) -> bool {
        true
    }

    fn decode(input: &mut Reader<'_>) -> (res: Result<Self, EzspError>) {
        broadcast use skips_nothing;

        Ok(ClearTransientLinkKeysResponse)
    }
}

impl Command for ClearTransientLinkKeys {
    type Response = ClearTransientLinkKeysResponse;

    const ID: u16 = FrameId::CLEAR_TRANSIENT_LINK_KEYS;
}

/// `getNetworkParameters` — read the network the NCP is on. Frame id `0x0028`.
///
/// The source of truth for persistence: PAN id, extended PAN id and channel
/// have to be stored to recognise the same network after a restart, and the
/// NCP is the only place they exist once a network has been formed.
///
/// Hardware: confirmed (EZSP 13) — on a resumed network.
#[derive(Debug, Clone, Copy, PartialEq, Eq)]
pub struct GetNetworkParameters;

/// The network the NCP is on.
#[derive(Debug, Clone, Copy, PartialEq, Eq)]
pub struct GetNetworkParametersResponse {
    /// Whether the NCP is on a network at all.
    pub status: SlStatus,
    /// What kind of node it is. `1` is a coordinator.
    pub node_type: u8,
    /// The parameters, meaningful only when `status` is success.
    pub parameters: NetworkParameters,
}

impl EzspEncode for GetNetworkParameters {
    open spec fn encoding(&self, version: ProtocolVersion) -> Seq<u8> {
        seq![]
    }

    open spec fn encode_failure(&self, version: ProtocolVersion) -> Option<EzspError> {
        None
    }

    fn encode(&self, out: &mut Writer) -> (res: Result<(), EzspError>) {
        proof {
            assert(out@ =~= old(out)@ + self.encoding(old(out).target()));
        }
        Ok(())
    }
}

impl EzspDecode for GetNetworkParametersResponse {
    open spec fn extent(bytes: Seq<u8>, version: ProtocolVersion) -> Extent {
        let width = version.status_width();
        SlStatus::extent(bytes, version).and_then(
            field(
                bytes.len(),
                width,
                1,
                NetworkParameters::extent(bytes.skip(width as int + 1), version).shifted(width + 1),
            ),
        )
    }

    open spec fn read_from(self, bytes: Seq<u8>, version: ProtocolVersion) -> bool {
        let width = version.status_width();
        &&& self.status == SlStatus::at(bytes, 0, version)
        &&& self.node_type == bytes[width as int]
        &&& self.parameters.read_from(bytes.skip(width as int + 1), version)
    }

    fn decode(input: &mut Reader<'_>) -> (res: Result<Self, EzspError>) {
        broadcast use {skips_add, skips_nothing};

        Ok(
            GetNetworkParametersResponse {
                status: SlStatus::decode(input)?,
                node_type: input.u8()?,
                parameters: NetworkParameters::decode(input)?,
            },
        )
    }
}

impl Command for GetNetworkParameters {
    type Response = GetNetworkParametersResponse;

    const ID: u16 = FrameId::GET_NETWORK_PARAMETERS;
}

/// `setInitialSecurityState` — configure security before forming a network.
/// Frame id `0x0068`.
///
/// # This writes keys
///
/// Sent before [`FormNetwork`], and only then. Calling it on a running network
/// rewrites the security configuration under every joined device.
///
/// [`crate::types::security::InitialSecurityBitmask::NO_FRAME_COUNTER_RESET`]
/// matters more than its name suggests when restoring a stored network: without
/// it the frame counters go back to zero, and every device that remembers a
/// higher counter rejects the coordinator's frames as replays.
///
/// Hardware: not yet.
#[derive(Debug, Clone, Copy, PartialEq, Eq)]
pub struct SetInitialSecurityState {
    /// The configuration.
    pub state: InitialSecurityState,
}

/// Whether the configuration was accepted.
#[derive(Debug, Clone, Copy, PartialEq, Eq)]
pub struct SetInitialSecurityStateResponse {
    /// The NCP's answer.
    pub status: SlStatus,
}

impl EzspEncode for SetInitialSecurityState {
    open spec fn encoding(&self, version: ProtocolVersion) -> Seq<u8> {
        self.state.encoding(version)
    }

    open spec fn encode_failure(&self, version: ProtocolVersion) -> Option<EzspError> {
        None
    }

    fn encode(&self, out: &mut Writer) -> (res: Result<(), EzspError>) {
        self.state.encode(out)?;
        Ok(())
    }
}

impl EzspDecode for SetInitialSecurityStateResponse {
    open spec fn extent(bytes: Seq<u8>, version: ProtocolVersion) -> Extent {
        SlStatus::extent(bytes, version)
    }

    open spec fn read_from(self, bytes: Seq<u8>, version: ProtocolVersion) -> bool {
        self.status == SlStatus::at(bytes, 0, version)
    }

    fn decode(input: &mut Reader<'_>) -> (res: Result<Self, EzspError>) {
        Ok(SetInitialSecurityStateResponse { status: SlStatus::decode(input)? })
    }
}

impl Command for SetInitialSecurityState {
    type Response = SetInitialSecurityStateResponse;

    const ID: u16 = FrameId::SET_INITIAL_SECURITY_STATE;
}

/// `formNetwork` — create a network. Frame id `0x001e`.
///
/// # This writes to the dongle
///
/// Forming stores a new network in the NCP's tokens. Doing it on a coordinator
/// that already has a network orphans every device that had joined: they hold
/// keys for a network that no longer exists and cannot be told, because
/// telling them requires the network they can no longer reach.
///
/// Resume with [`NetworkInit`] first, and form only if that reports there is
/// nothing to resume.
///
/// Hardware: not yet.
#[derive(Debug, Clone, Copy, PartialEq, Eq)]
pub struct FormNetwork {
    /// The network to create.
    pub parameters: NetworkParameters,
}

/// Whether the network was formed.
#[derive(Debug, Clone, Copy, PartialEq, Eq)]
pub struct FormNetworkResponse {
    /// The NCP's answer. Success here means forming *started*; the network is
    /// up when a `stackStatus` callback says so.
    pub status: SlStatus,
}

impl EzspEncode for FormNetwork {
    open spec fn encoding(&self, version: ProtocolVersion) -> Seq<u8> {
        self.parameters.encoding(version)
    }

    open spec fn encode_failure(&self, version: ProtocolVersion) -> Option<EzspError> {
        None
    }

    fn encode(&self, out: &mut Writer) -> (res: Result<(), EzspError>) {
        self.parameters.encode(out)?;
        Ok(())
    }
}

impl EzspDecode for FormNetworkResponse {
    open spec fn extent(bytes: Seq<u8>, version: ProtocolVersion) -> Extent {
        SlStatus::extent(bytes, version)
    }

    open spec fn read_from(self, bytes: Seq<u8>, version: ProtocolVersion) -> bool {
        self.status == SlStatus::at(bytes, 0, version)
    }

    fn decode(input: &mut Reader<'_>) -> (res: Result<Self, EzspError>) {
        Ok(FormNetworkResponse { status: SlStatus::decode(input)? })
    }
}

impl Command for FormNetwork {
    type Response = FormNetworkResponse;

    const ID: u16 = FrameId::FORM_NETWORK;
}

/// `exportKey` — read a key out of the security manager. Frame id `0x0114`.
///
/// # This returns key material
///
/// The network key is what persistence needs in order to resume a network
/// after the NCP is replaced or reset. [`SecurityKey`] redacts in `Debug` so a
/// structure containing one can be logged, but the bytes are real and
/// `expose()` is deliberately explicit.
///
/// Note the field order: the key comes **before** the status, which is the
/// reverse of every other command here.
///
/// Hardware: confirmed (EZSP 13) — the network key exported here resumed a
/// network.
#[derive(Debug, Clone, Copy, PartialEq, Eq)]
pub struct ExportKey {
    /// Which key to read.
    pub context: SecurityManContext,
}

/// The key, if the security manager would part with it.
#[derive(Debug, Clone, Copy, PartialEq, Eq)]
pub struct ExportKeyResponse {
    /// The key. Meaningless unless `status` is success.
    pub key: SecurityKey,
    /// The NCP's answer. Always four bytes: a security-manager command returns
    /// an `sl_status_t` at every version.
    pub status: SlStatus,
}

impl EzspEncode for ExportKey {
    open spec fn encoding(&self, version: ProtocolVersion) -> Seq<u8> {
        self.context.encoding(version)
    }

    open spec fn encode_failure(&self, version: ProtocolVersion) -> Option<EzspError> {
        None
    }

    fn encode(&self, out: &mut Writer) -> (res: Result<(), EzspError>) {
        self.context.encode(out)?;
        Ok(())
    }
}

impl EzspDecode for ExportKeyResponse {
    open spec fn extent(bytes: Seq<u8>, version: ProtocolVersion) -> Extent {
        let n = bytes.len();
        field(n, 0, KEY_LEN as nat, field(n, KEY_LEN as nat, 4, Extent::Whole(
            (KEY_LEN + 4) as nat,
        )))
    }

    open spec fn read_from(self, bytes: Seq<u8>, version: ProtocolVersion) -> bool {
        &&& self.key@ == bytes.take(KEY_LEN as int)
        &&& self.status == SlStatus(le32(bytes, KEY_LEN as int))
    }

    fn decode(input: &mut Reader<'_>) -> (res: Result<Self, EzspError>) {
        broadcast use {skips_add, skips_nothing};

        // Key first, status second. Reversing these yields sixteen bytes of
        // plausible-looking key material built from a status and the first
        // twelve bytes of the real key.
        Ok(ExportKeyResponse { key: SecurityKey::decode(input)?, status: SlStatus(input.u32()?) })
    }
}

impl Command for ExportKey {
    type Response = ExportKeyResponse;

    const ID: u16 = FrameId::EXPORT_KEY;
}

/// `sendBroadcast` — send to every node within a radius. Frame id `0x0036`.
///
/// Used for ZDO requests that have no single destination, such as asking the
/// network who provides a service. The message tag's width follows the same
/// boundary as [`SendUnicast`].
///
/// Hardware: not yet.
#[derive(Debug, Clone, PartialEq, Eq)]
pub struct SendBroadcast {
    /// Which broadcast address. See [`NodeId::BROADCAST_ALL`] and its
    /// neighbours.
    pub destination: NodeId,
    /// The APS header.
    pub aps_frame: ApsFrame,
    /// How many hops. `0` means the stack's maximum -- a broadcast is flooded,
    /// so a smaller radius is worth using when the destination is nearby.
    pub radius: u8,
    /// Echoed back by the matching `messageSent` callback.
    pub message_tag: u16,
    /// The application payload.
    pub message: Vec<u8>,
}

/// Whether the broadcast was accepted for sending.
#[derive(Debug, Clone, Copy, PartialEq, Eq)]
pub struct SendBroadcastResponse {
    /// The NCP's answer.
    pub status: SlStatus,
    /// The APS sequence number it was sent with.
    pub aps_sequence: u8,
}

impl EzspEncode for SendBroadcast {
    open spec fn encoding(&self, version: ProtocolVersion) -> Seq<u8> {
        bytes16(self.destination.0) + self.aps_frame.encoding(version) + seq![self.radius]
            + tag_bytes(self.message_tag, version) + prefixed_bytes(self.message@)
    }

    open spec fn encode_failure(&self, version: ProtocolVersion) -> Option<EzspError> {
        prefixed_failure(self.message@)
    }

    fn encode(&self, out: &mut Writer) -> (res: Result<(), EzspError>) {
        out.u16(self.destination.0);
        self.aps_frame.encode(out)?;
        out.u8(self.radius);
        write_tag(out, self.message_tag);
        let res = out.length_prefixed(self.message.as_slice());
        proof {
            assert(out@ =~= old(out)@ + self.encoding(old(out).target()));
        }
        res
    }
}

impl EzspDecode for SendBroadcastResponse {
    open spec fn extent(bytes: Seq<u8>, version: ProtocolVersion) -> Extent {
        SlStatus::extent(bytes, version).and_then(
            field(
                bytes.len(),
                version.status_width(),
                1,
                Extent::Whole(version.status_width() + 1),
            ),
        )
    }

    open spec fn read_from(self, bytes: Seq<u8>, version: ProtocolVersion) -> bool {
        &&& self.status == SlStatus::at(bytes, 0, version)
        &&& self.aps_sequence == bytes[version.status_width() as int]
    }

    fn decode(input: &mut Reader<'_>) -> (res: Result<Self, EzspError>) {
        broadcast use {skips_add, skips_nothing};

        Ok(SendBroadcastResponse { status: SlStatus::decode(input)?, aps_sequence: input.u8()? })
    }
}

impl Command for SendBroadcast {
    type Response = SendBroadcastResponse;

    const ID: u16 = FrameId::SEND_BROADCAST;
}

/// `networkState` — what the stack is doing. Frame id `0x0018`.
///
/// # Only meaningful after `networkInit`
///
/// This reports `NO_NETWORK` on a coordinator that has a perfectly good stored
/// network, right up until [`NetworkInit`] has run. Reading it first and
/// believing the answer is how a stack forms a new network over an existing
/// one and orphans every joined device.
///
/// Hardware: confirmed (EZSP 13).
#[derive(Debug, Clone, Copy, PartialEq, Eq)]
pub struct NetworkState;

/// What the stack is doing.
#[derive(Debug, Clone, Copy, PartialEq, Eq)]
pub struct NetworkStateResponse {
    /// The raw state. See [`NetworkStatus`].
    pub state: NetworkStatus,
}

impl EzspEncode for NetworkState {
    open spec fn encoding(&self, version: ProtocolVersion) -> Seq<u8> {
        seq![]
    }

    open spec fn encode_failure(&self, version: ProtocolVersion) -> Option<EzspError> {
        None
    }

    fn encode(&self, out: &mut Writer) -> (res: Result<(), EzspError>) {
        proof {
            assert(out@ =~= old(out)@ + self.encoding(old(out).target()));
        }
        Ok(())
    }
}

impl EzspDecode for NetworkStateResponse {
    open spec fn extent(bytes: Seq<u8>, version: ProtocolVersion) -> Extent {
        field(bytes.len(), 0, 1, Extent::Whole(1))
    }

    open spec fn read_from(self, bytes: Seq<u8>, version: ProtocolVersion) -> bool {
        self.state == NetworkStatus(bytes[0])
    }

    fn decode(input: &mut Reader<'_>) -> (res: Result<Self, EzspError>) {
        // A one-byte enumeration at every version: this is an
        // `EmberNetworkStatus` rather than a status code, so it did not widen
        // at EZSP 14.
        Ok(NetworkStateResponse { state: NetworkStatus(input.u8()?) })
    }
}

impl Command for NetworkState {
    type Response = NetworkStateResponse;

    const ID: u16 = FrameId::NETWORK_STATE;
}

/// `sendMulticast` — send to a group. Frame id `0x0038`.
///
/// The group id travels in the APS frame rather than as an argument, which is
/// easy to miss: a multicast whose `aps_frame.group_id` is left at zero is
/// addressed to group zero, not to the group the caller meant. The message
/// tag's width follows the same boundary as [`SendUnicast`].
///
/// Hardware: not yet — needs a device bound into a group.
#[derive(Debug, Clone, PartialEq, Eq)]
pub struct SendMulticast {
    /// The APS header, carrying the destination group in `group_id`.
    pub aps_frame: ApsFrame,
    /// Hops before the message stops being forwarded. `0` for the default.
    pub hops: u8,
    /// How far the message travels through nodes that are not group members.
    pub nonmember_radius: u8,
    /// Echoed back by the matching `messageSent` callback.
    pub message_tag: u16,
    /// The application payload.
    pub message: Vec<u8>,
}

/// Whether the multicast was accepted for sending.
#[derive(Debug, Clone, Copy, PartialEq, Eq)]
pub struct SendMulticastResponse {
    /// The NCP's answer.
    pub status: SlStatus,
    /// The APS sequence number it was sent with.
    pub aps_sequence: u8,
}

impl EzspEncode for SendMulticast {
    open spec fn encoding(&self, version: ProtocolVersion) -> Seq<u8> {
        self.aps_frame.encoding(version) + seq![self.hops, self.nonmember_radius] + tag_bytes(
            self.message_tag,
            version,
        ) + prefixed_bytes(self.message@)
    }

    open spec fn encode_failure(&self, version: ProtocolVersion) -> Option<EzspError> {
        prefixed_failure(self.message@)
    }

    fn encode(&self, out: &mut Writer) -> (res: Result<(), EzspError>) {
        self.aps_frame.encode(out)?;
        out.u8(self.hops);
        out.u8(self.nonmember_radius);
        write_tag(out, self.message_tag);
        let res = out.length_prefixed(self.message.as_slice());
        proof {
            assert(out@ =~= old(out)@ + self.encoding(old(out).target()));
        }
        res
    }
}

impl EzspDecode for SendMulticastResponse {
    open spec fn extent(bytes: Seq<u8>, version: ProtocolVersion) -> Extent {
        SlStatus::extent(bytes, version).and_then(
            field(
                bytes.len(),
                version.status_width(),
                1,
                Extent::Whole(version.status_width() + 1),
            ),
        )
    }

    open spec fn read_from(self, bytes: Seq<u8>, version: ProtocolVersion) -> bool {
        &&& self.status == SlStatus::at(bytes, 0, version)
        &&& self.aps_sequence == bytes[version.status_width() as int]
    }

    fn decode(input: &mut Reader<'_>) -> (res: Result<Self, EzspError>) {
        broadcast use {skips_add, skips_nothing};

        Ok(SendMulticastResponse { status: SlStatus::decode(input)?, aps_sequence: input.u8()? })
    }
}

impl Command for SendMulticast {
    type Response = SendMulticastResponse;

    const ID: u16 = FrameId::SEND_MULTICAST;
}

/// `getNetworkKeyInfo` — the network key's sequence number and frame counter.
/// Frame id `0x0116`.
///
/// # Why the frame counter matters
///
/// The outgoing frame counter is the field whose loss breaks a network.
/// Devices reject a frame whose counter is not higher than the last one they
/// saw, so a coordinator restored with a counter lower than the one its devices
/// remember is ignored by every one of them -- while looking, from its own
/// side, entirely healthy.
///
/// This is security-manager state rather than a network parameter, which is why
/// it needs its own call rather than coming back from
/// [`GetNetworkParameters`].
///
/// Hardware: confirmed (EZSP 13).
#[derive(Debug, Clone, Copy, PartialEq, Eq)]
pub struct GetNetworkKeyInfo;

/// The network key's metadata. Not the key itself — see [`ExportKey`].
#[derive(Debug, Clone, Copy, PartialEq, Eq)]
pub struct GetNetworkKeyInfoResponse {
    /// The NCP's answer. Four bytes at every version, as for every
    /// security-manager command.
    pub status: SlStatus,
    /// Whether a network key is set at all.
    pub network_key_set: bool,
    /// Whether an alternate key is set.
    pub alternate_network_key_set: bool,
    /// The key's sequence number.
    pub network_key_sequence_number: u8,
    /// The alternate key's sequence number.
    pub alt_network_key_sequence_number: u8,
    /// The outgoing frame counter.
    pub network_key_frame_counter: u32,
}

impl EzspEncode for GetNetworkKeyInfo {
    open spec fn encoding(&self, version: ProtocolVersion) -> Seq<u8> {
        seq![]
    }

    open spec fn encode_failure(&self, version: ProtocolVersion) -> Option<EzspError> {
        None
    }

    fn encode(&self, out: &mut Writer) -> (res: Result<(), EzspError>) {
        proof {
            assert(out@ =~= old(out)@ + self.encoding(old(out).target()));
        }
        Ok(())
    }
}

impl EzspDecode for GetNetworkKeyInfoResponse {
    open spec fn extent(bytes: Seq<u8>, version: ProtocolVersion) -> Extent {
        let n = bytes.len();
        field(n, 0, 4, field(n, 4, 1, field(n, 5, 1, field(n, 6, 1, field(n, 7, 1, field(
            n,
            8,
            4,
            Extent::Whole(12),
        ))))))
    }

    open spec fn read_from(self, bytes: Seq<u8>, version: ProtocolVersion) -> bool {
        self == (GetNetworkKeyInfoResponse {
            status: SlStatus(le32(bytes, 0)),
            network_key_set: bytes[4] != 0,
            alternate_network_key_set: bytes[5] != 0,
            network_key_sequence_number: bytes[6],
            alt_network_key_sequence_number: bytes[7],
            network_key_frame_counter: le32(bytes, 8),
        })
    }

    fn decode(input: &mut Reader<'_>) -> (res: Result<Self, EzspError>) {
        broadcast use {skips_add, skips_nothing};

        Ok(
            GetNetworkKeyInfoResponse {
                status: SlStatus(input.u32()?),
                // Booleans on the wire are a byte each. Any non-zero value is true;
                // firmware is not obliged to send exactly 1.
                network_key_set: input.u8()? != 0,
                alternate_network_key_set: input.u8()? != 0,
                network_key_sequence_number: input.u8()?,
                alt_network_key_sequence_number: input.u8()?,
                network_key_frame_counter: input.u32()?,
            },
        )
    }
}

impl Command for GetNetworkKeyInfo {
    type Response = GetNetworkKeyInfoResponse;

    const ID: u16 = FrameId::GET_NETWORK_KEY_INFO;
}

/// The flags of a transient key are sent below EZSP 14 and at no other
/// version; the address and the key are always in the same places.
pub proof fn transient_key_flags_follow_the_boundary(
    command: ImportTransientKey,
    version: ProtocolVersion,
)
    ensures
        command.encoding(version).len() == if version.wide() { 24nat } else { 25nat },
        command.encoding(version).take(8) == bytes64(command.eui64.0),
        command.encoding(version).subrange(8, 24) == command.key@,
        !version.wide() ==> command.encoding(version)[24] == command.flags.0,
{
    keys_round_trip(command.key, version, seq![]);
    assert(command.encoding(version).take(8) =~= bytes64(command.eui64.0));
    assert(command.encoding(version).subrange(8, 24) =~= command.key@);
}

/// Whether a send command's parameters end in a tag at `at`, the payload's
/// length behind it, and the payload itself.
pub open spec fn ends_in_tagged_payload(
    parameters: Seq<u8>,
    at: int,
    tag: u16,
    message: Seq<u8>,
    version: ProtocolVersion,
) -> bool {
    let behind = at + version.tag_width();
    &&& parameters.len() == behind + 1 + message.len()
    &&& parameters.subrange(at, behind) == tag_bytes(tag, version)
    &&& parameters[behind] == message.len()
    &&& parameters.skip(behind + 1) == message
}

/// A unicast's tag stands at offset fourteen; what follows it moves one byte
/// further in where the tag is wide.
pub proof fn unicast_payloads_follow_the_tag(command: SendUnicast, version: ProtocolVersion)
    requires
        command.message@.len() <= 255,
    ensures
        ends_in_tagged_payload(
            command.encoding(version),
            14,
            command.message_tag,
            command.message@,
            version,
        ),
{
    let behind = 14 + version.tag_width() as int;
    let parameters = command.encoding(version);
    assert(parameters.subrange(14, behind) =~= tag_bytes(command.message_tag, version));
    assert(parameters.skip(behind + 1) =~= command.message@);
}

/// A broadcast's tag stands at offset fourteen, behind the radius.
pub proof fn broadcast_payloads_follow_the_tag(command: SendBroadcast, version: ProtocolVersion)
    requires
        command.message@.len() <= 255,
    ensures
        command.encoding(version)[13] == command.radius,
        ends_in_tagged_payload(
            command.encoding(version),
            14,
            command.message_tag,
            command.message@,
            version,
        ),
{
    let behind = 14 + version.tag_width() as int;
    let parameters = command.encoding(version);
    assert(parameters.subrange(14, behind) =~= tag_bytes(command.message_tag, version));
    assert(parameters.skip(behind + 1) =~= command.message@);
}

/// A multicast's tag stands at offset thirteen, and its group travels in the
/// APS header, at offset eight.
pub proof fn multicast_payloads_follow_the_tag(command: SendMulticast, version: ProtocolVersion)
    requires
        command.message@.len() <= 255,
    ensures
        le16(command.encoding(version), 8) == command.aps_frame.group_id,
        ends_in_tagged_payload(
            command.encoding(version),
            13,
            command.message_tag,
            command.message@,
            version,
        ),
{
    let behind = 13 + version.tag_width() as int;
    let parameters = command.encoding(version);
    assert(parameters.subrange(13, behind) =~= tag_bytes(command.message_tag, version));
    assert(parameters.skip(behind + 1) =~= command.message@);
}

/// A list of clusters takes two bytes each, and each stands in its place.
proof fn clusters_stand_in_order(clusters: Seq<u16>)
    ensures
        cluster_bytes(clusters).len() == 2 * clusters.len(),
        forall|i: int|
            0 <= i < clusters.len() ==> le16(cluster_bytes(clusters), 2 * i)
                == #[trigger] clusters[i],
    decreases clusters.len(),
{
    if clusters.len() > 0 {
        let head = clusters.drop_last();
        clusters_stand_in_order(head);
        assert forall|i: int| 0 <= i < clusters.len() implies le16(cluster_bytes(clusters), 2 * i)
            == #[trigger] clusters[i] by {
            if i < head.len() {
                assert(head[i] == clusters[i]);
                assert(cluster_bytes(clusters)[2 * i] == cluster_bytes(head)[2 * i]);
                assert(cluster_bytes(clusters)[2 * i + 1] == cluster_bytes(head)[2 * i + 1]);
            } else {
                assert(cluster_bytes(clusters)[2 * i] == bytes16(clusters[i])[0]);
                assert(cluster_bytes(clusters)[2 * i + 1] == bytes16(clusters[i])[1]);
            }
        }
    }
}

/// An endpoint is announced with both counts before either list, inputs first.
pub proof fn both_counts_precede_both_lists(command: AddEndpoint, version: ProtocolVersion)
    requires
        command.input_clusters@.len() <= 255,
        command.output_clusters@.len() <= 255,
    ensures
        ({
            let parameters = command.encoding(version);
            let inputs = command.input_clusters@;
            let outputs = command.output_clusters@;
            &&& parameters.len() == 8 + 2 * inputs.len() + 2 * outputs.len()
            &&& parameters[6] == inputs.len()
            &&& parameters[7] == outputs.len()
            &&& forall|i: int|
                0 <= i < inputs.len() ==> le16(parameters, 8 + 2 * i) == #[trigger] inputs[i]
            &&& forall|i: int|
                0 <= i < outputs.len() ==> le16(parameters, 8 + 2 * inputs.len() + 2 * i)
                    == #[trigger] outputs[i]
        }),
{
    let parameters = command.encoding(version);
    let inputs = command.input_clusters@;
    let outputs = command.output_clusters@;
    clusters_stand_in_order(inputs);
    clusters_stand_in_order(outputs);
    assert forall|i: int| 0 <= i < inputs.len() implies le16(parameters, 8 + 2 * i)
        == #[trigger] inputs[i] by {
        assert(parameters[8 + 2 * i] == cluster_bytes(inputs)[2 * i]);
        assert(parameters[8 + 2 * i + 1] == cluster_bytes(inputs)[2 * i + 1]);
    }
    assert forall|i: int| 0 <= i < outputs.len() implies le16(
        parameters,
        8 + 2 * inputs.len() + 2 * i,
    ) == #[trigger] outputs[i] by {
        let at = 8 + 2 * inputs.len() + 2 * i;
        assert(parameters[at] == cluster_bytes(outputs)[2 * i]);
        assert(parameters[at + 1] == cluster_bytes(outputs)[2 * i + 1]);
    }
}

/// Every response has one length, and fewer bytes are refused rather than
/// filled in. The security manager's are the same at every version; those that
/// begin with a status follow its width.
pub proof fn short_responses_are_refused(bytes: Seq<u8>, version: ProtocolVersion)
    ensures
        VersionResponse::extent(bytes, version) is Whole <==> bytes.len() >= 4,
        GetEui64Response::extent(bytes, version) is Whole <==> bytes.len() >= 8,
        NetworkStateResponse::extent(bytes, version) is Whole <==> bytes.len() >= 1,
        ExportKeyResponse::extent(bytes, version) is Whole <==> bytes.len() >= 20,
        ImportTransientKeyResponse::extent(bytes, version) is Whole <==> bytes.len() >= 4,
        GetNetworkKeyInfoResponse::extent(bytes, version) is Whole <==> bytes.len() >= 12,
        NetworkInitResponse::extent(bytes, version) is Whole <==> bytes.len()
            >= version.status_width(),
        PermitJoiningResponse::extent(bytes, version) is Whole <==> bytes.len()
            >= version.status_width(),
        SetConfigurationValueResponse::extent(bytes, version) is Whole <==> bytes.len()
            >= version.status_width(),
        SetPolicyResponse::extent(bytes, version) is Whole <==> bytes.len()
            >= version.status_width(),
        AddEndpointResponse::extent(bytes, version) is Whole <==> bytes.len()
            >= version.status_width(),
        SetInitialSecurityStateResponse::extent(bytes, version) is Whole <==> bytes.len()
            >= version.status_width(),
        FormNetworkResponse::extent(bytes, version) is Whole <==> bytes.len()
            >= version.status_width(),
        SendUnicastResponse::extent(bytes, version) is Whole <==> bytes.len()
            >= version.status_width() + 1,
        SendBroadcastResponse::extent(bytes, version) is Whole <==> bytes.len()
            >= version.status_width() + 1,
        SendMulticastResponse::extent(bytes, version) is Whole <==> bytes.len()
            >= version.status_width() + 1,
        GetConfigurationValueResponse::extent(bytes, version) is Whole <==> bytes.len()
            >= version.status_width() + 2,
        GetNetworkParametersResponse::extent(bytes, version) is Whole <==> bytes.len()
            >= version.status_width() + 21,
        GetValueResponse::extent(bytes, version) is Whole <==> bytes.len() > version.status_width()
            && bytes.len() >= version.status_width() + 1 + bytes[version.status_width() as int],
{
}

/// Every command goes out under its own id.
pub proof fn command_ids()
    ensures
        Version::ID == FrameId::VERSION,
        GetEui64::ID == FrameId::GET_EUI64,
        NetworkInit::ID == FrameId::NETWORK_INIT,
        PermitJoining::ID == FrameId::PERMIT_JOINING,
        SetConfigurationValue::ID == FrameId::SET_CONFIGURATION_VALUE,
        SetPolicy::ID == FrameId::SET_POLICY,
        AddEndpoint::ID == FrameId::ADD_ENDPOINT,
        SendUnicast::ID == FrameId::SEND_UNICAST,
        ImportTransientKey::ID == FrameId::IMPORT_TRANSIENT_KEY,
        GetConfigurationValue::ID == FrameId::GET_CONFIGURATION_VALUE,
        GetValue::ID == FrameId::GET_VALUE,
        SetManufacturerCode::ID == FrameId::SET_MANUFACTURER_CODE,
        ClearTransientLinkKeys::ID == FrameId::CLEAR_TRANSIENT_LINK_KEYS,
        GetNetworkParameters::ID == FrameId::GET_NETWORK_PARAMETERS,
        SetInitialSecurityState::ID == FrameId::SET_INITIAL_SECURITY_STATE,
        FormNetwork::ID == FrameId::FORM_NETWORK,
        ExportKey::ID == FrameId::EXPORT_KEY,
        SendBroadcast::ID == FrameId::SEND_BROADCAST,
        NetworkState::ID == FrameId::NETWORK_STATE,
        SendMulticast::ID == FrameId::SEND_MULTICAST,
        GetNetworkKeyInfo::ID == FrameId::GET_NETWORK_KEY_INFO,
{
}

/// Every command whose parameters or answer hold a key, or describe one, is
/// kept out of logs, and no other is.
pub proof fn key_bearing_commands_are_secret()
    ensures
        FrameId(ImportTransientKey::ID).is_secret(),
        FrameId(SetInitialSecurityState::ID).is_secret(),
        FrameId(ExportKey::ID).is_secret(),
        FrameId(GetNetworkKeyInfo::ID).is_secret(),
        !FrameId(Version::ID).is_secret(),
        !FrameId(GetEui64::ID).is_secret(),
        !FrameId(NetworkInit::ID).is_secret(),
        !FrameId(PermitJoining::ID).is_secret(),
        !FrameId(SetConfigurationValue::ID).is_secret(),
        !FrameId(SetPolicy::ID).is_secret(),
        !FrameId(AddEndpoint::ID).is_secret(),
        !FrameId(SendUnicast::ID).is_secret(),
        !FrameId(GetConfigurationValue::ID).is_secret(),
        !FrameId(GetValue::ID).is_secret(),
        !FrameId(SetManufacturerCode::ID).is_secret(),
        !FrameId(ClearTransientLinkKeys::ID).is_secret(),
        !FrameId(GetNetworkParameters::ID).is_secret(),
        !FrameId(FormNetwork::ID).is_secret(),
        !FrameId(SendBroadcast::ID).is_secret(),
        !FrameId(NetworkState::ID).is_secret(),
        !FrameId(SendMulticast::ID).is_secret(),
{
}

} // verus!
