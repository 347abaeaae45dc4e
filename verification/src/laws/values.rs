//! The values that commands and callbacks exchange, byte by byte.

use vstd::prelude::*;

use crate::ezsp::codec::{bytes32, Extent, EzspDecode, EzspEncode};
use crate::ezsp::version::ProtocolVersion;
use crate::laws::bytes::{
    address, cut_inside, long, numbers_are_read_little_endian, numbers_go_out_little_endian, word,
};
use crate::types::aps::{ApsFrame, UnicastType};
use crate::types::network::{bytes64, Eui64, NetworkInitBitmask, NetworkParameters, NodeId};
use crate::types::security::{
    keys_round_trip, InitialSecurityState, SecurityKey, SecurityManContext,
};
use crate::types::status::SlStatus;

verus! {

/// How many bytes a status takes: four from version 14 on, one before.
pub open spec fn status_len(version: ProtocolVersion) -> nat {
    if version.0 >= 14 {
        4
    } else {
        1
    }
}

/// The number of a status at an offset.
pub open spec fn status_number(bytes: Seq<u8>, at: int, version: ProtocolVersion) -> int {
    if version.0 >= 14 {
        long(bytes, at)
    } else {
        bytes[at] as int
    }
}

/// A status is the number at its place, at the width of the version, and is
/// refused where that many bytes are not there.
pub proof fn statuses_are_their_numbers(bytes: Seq<u8>, at: int, version: ProtocolVersion)
    ensures
        SlStatus::at(bytes, at, version).0 == status_number(bytes, at, version),
        bytes.len() >= status_len(version) ==> SlStatus::extent(bytes, version) == Extent::Whole(
            status_len(version),
        ),
        cut_inside(SlStatus::extent(bytes, version), bytes.len(), 0, status_len(version)),
{
}

/// An address is eight bytes, least significant first, both ways.
pub proof fn addresses_are_eight_bytes(
    eui64: Eui64,
    bytes: Seq<u8>,
    version: ProtocolVersion,
)
    ensures
        eui64.encoding(version).len() == 8,
        address(eui64.encoding(version), 0) == eui64.0,
        eui64.encode_failure(version) is None,
        eui64.read_from(bytes, version) ==> eui64.0 == address(bytes, 0),
        bytes.len() >= 8 ==> Eui64::extent(bytes, version) == Extent::Whole(8),
        cut_inside(Eui64::extent(bytes, version), bytes.len(), 0, 8),
{
    numbers_go_out_little_endian(0, 0, eui64.0);
    numbers_are_read_little_endian(bytes, 0);
}

/// A short address, and the flags of `networkInit`, are two bytes, least
/// significant first.
pub proof fn short_addresses_are_two_bytes(
    node: NodeId,
    flags: NetworkInitBitmask,
    bytes: Seq<u8>,
    version: ProtocolVersion,
)
    ensures
        node.encoding(version).len() == 2,
        word(node.encoding(version), 0) == node.0,
        node.encode_failure(version) is None,
        node.read_from(bytes, version) ==> node.0 == word(bytes, 0),
        bytes.len() >= 2 ==> NodeId::extent(bytes, version) == Extent::Whole(2),
        cut_inside(NodeId::extent(bytes, version), bytes.len(), 0, 2),
        flags.encoding(version).len() == 2,
        word(flags.encoding(version), 0) == flags.0,
        flags.encode_failure(version) is None,
{
    numbers_go_out_little_endian(node.0, 0, 0);
    numbers_go_out_little_endian(flags.0, 0, 0);
}

/// The eleven bytes of an APS header hold profile, cluster, our endpoint, their
/// endpoint, options, group and sequence, in that order.
pub open spec fn is_aps_header(bytes: Seq<u8>, frame: ApsFrame) -> bool {
    &&& word(bytes, 0) == frame.profile_id
    &&& word(bytes, 2) == frame.cluster_id
    &&& bytes[4] == frame.source_endpoint
    &&& bytes[5] == frame.destination_endpoint
    &&& word(bytes, 6) == frame.options.0
    &&& word(bytes, 8) == frame.group_id
    &&& bytes[10] == frame.sequence
}

/// An APS header is written to and read from its eleven bytes.
pub proof fn aps_headers_hold_their_fields(
    frame: ApsFrame,
    bytes: Seq<u8>,
    version: ProtocolVersion,
)
    ensures
        frame.encoding(version).len() == 11,
        is_aps_header(frame.encoding(version), frame),
        frame.encode_failure(version) is None,
        is_aps_header(bytes, ApsFrame::at_start_of(bytes)),
        frame.read_from(bytes, version) ==> is_aps_header(bytes, frame),
        ({
            let n = bytes.len();
            let extent = ApsFrame::extent(bytes, version);
            &&& n >= 11 ==> extent == Extent::Whole(11)
            &&& cut_inside(extent, n, 0, 2)
            &&& cut_inside(extent, n, 2, 2)
            &&& cut_inside(extent, n, 4, 1)
            &&& cut_inside(extent, n, 5, 1)
            &&& cut_inside(extent, n, 6, 2)
            &&& cut_inside(extent, n, 8, 2)
            &&& cut_inside(extent, n, 10, 1)
        }),
{
    let sent = frame.encoding(version);
    numbers_go_out_little_endian(frame.profile_id, 0, 0);
    numbers_go_out_little_endian(frame.cluster_id, 0, 0);
    numbers_go_out_little_endian(frame.options.0, 0, 0);
    numbers_go_out_little_endian(frame.group_id, 0, 0);
}

/// The five ways of addressing have the numbers zero to four.
pub proof fn addressing_is_numbered(kind: UnicastType, version: ProtocolVersion)
    ensures
        kind.encoding(version).len() == 1,
        kind.encoding(version)[0] == kind.wire_value(),
        kind.encode_failure(version) is None,
        kind.wire_value() == match kind {
            UnicastType::Direct => 0u8,
            UnicastType::ViaAddressTable => 1,
            UnicastType::ViaBinding => 2,
            UnicastType::Multicast => 3,
            UnicastType::Broadcast => 4,
        },
{
}

/// The twenty bytes of network parameters hold the extended PAN id, the PAN id,
/// the signed transmit power, the channel, the join method, the manager's
/// address, the update id and the channel mask, in that order.
pub open spec fn are_network_parameters(bytes: Seq<u8>, parameters: NetworkParameters) -> bool {
    &&& forall|i: int| 0 <= i < 8 ==> #[trigger] parameters.extended_pan_id@[i] == bytes[i]
    &&& word(bytes, 8) == parameters.pan_id
    &&& bytes[10] == if parameters.radio_tx_power < 0 {
        256 + parameters.radio_tx_power
    } else {
        parameters.radio_tx_power as int
    }
    &&& bytes[11] == parameters.radio_channel
    &&& bytes[12] == parameters.join_method
    &&& word(bytes, 13) == parameters.nwk_manager_id
    &&& bytes[15] == parameters.nwk_update_id
    &&& long(bytes, 16) == parameters.channels
}

/// Network parameters are written to and read from their twenty bytes.
pub proof fn network_parameters_hold_their_fields(
    parameters: NetworkParameters,
    bytes: Seq<u8>,
    version: ProtocolVersion,
)
    ensures
        parameters.encoding(version).len() == 20,
        are_network_parameters(parameters.encoding(version), parameters),
        parameters.encode_failure(version) is None,
        bytes.len() >= 20 && parameters.read_from(bytes, version) ==> are_network_parameters(
            bytes,
            parameters,
        ),
        ({
            let n = bytes.len();
            let extent = NetworkParameters::extent(bytes, version);
            &&& n >= 20 ==> extent == Extent::Whole(20)
            &&& cut_inside(extent, n, 0, 8)
            &&& cut_inside(extent, n, 8, 2)
            &&& cut_inside(extent, n, 10, 1)
            &&& cut_inside(extent, n, 11, 1)
            &&& cut_inside(extent, n, 12, 1)
            &&& cut_inside(extent, n, 13, 2)
            &&& cut_inside(extent, n, 15, 1)
            &&& cut_inside(extent, n, 16, 4)
        }),
{
    let sent = parameters.encoding(version);
    numbers_go_out_little_endian(parameters.pan_id, parameters.channels, 0);
    numbers_go_out_little_endian(parameters.nwk_manager_id, 0, 0);
    numbers_are_read_little_endian(bytes, 16);
    assert(long(sent, 16) == long(bytes32(parameters.channels), 0));
    if bytes.len() >= 20 && parameters.read_from(bytes, version) {
        assert forall|i: int| 0 <= i < 8 implies #[trigger] parameters.extended_pan_id@[i]
            == bytes[i] by {
            assert(bytes.take(8)[i] == bytes[i]);
        }
    }
}

/// A key is sixteen bytes, in order, both ways.
pub proof fn keys_keep_their_bytes(
    key: SecurityKey,
    bytes: Seq<u8>,
    at: int,
    version: ProtocolVersion,
)
    requires
        0 <= at < 16,
    ensures
        key.encoding(version).len() == 16,
        key.encoding(version)[at] == key@[at],
        key.encode_failure(version) is None,
        bytes.len() >= 16 && key.read_from(bytes, version) ==> key@.len() == 16 && key@[at]
            == bytes[at],
        bytes.len() >= 16 ==> SecurityKey::extent(bytes, version) == Extent::Whole(16),
        cut_inside(SecurityKey::extent(bytes, version), bytes.len(), 0, 16),
{
    keys_round_trip(key, version, seq![]);
}

/// The seventeen bytes of a security-manager context hold the key type, the
/// index, the derived type, the address, the network index, the flags and the
/// algorithm permission, in that order.
pub open spec fn is_context(bytes: Seq<u8>, context: SecurityManContext) -> bool {
    &&& bytes[0] == context.core_key_type.0
    &&& bytes[1] == context.key_index
    &&& bytes[2] == context.derived_type
    &&& address(bytes, 3) == context.eui64.0
    &&& bytes[11] == context.multi_network_index
    &&& bytes[12] == context.flags.0
    &&& long(bytes, 13) == context.psa_key_alg_permission
}

/// A security-manager context is written to and read from its seventeen bytes.
pub proof fn contexts_hold_their_fields(
    context: SecurityManContext,
    bytes: Seq<u8>,
    version: ProtocolVersion,
)
    ensures
        context.encoding(version).len() == 17,
        is_context(context.encoding(version), context),
        context.encode_failure(version) is None,
        context.read_from(bytes, version) ==> is_context(bytes, context),
        ({
            let n = bytes.len();
            let extent = SecurityManContext::extent(bytes, version);
            &&& n >= 17 ==> extent == Extent::Whole(17)
            &&& cut_inside(extent, n, 0, 1)
            &&& cut_inside(extent, n, 1, 1)
            &&& cut_inside(extent, n, 2, 1)
            &&& cut_inside(extent, n, 3, 8)
            &&& cut_inside(extent, n, 11, 1)
            &&& cut_inside(extent, n, 12, 1)
            &&& cut_inside(extent, n, 13, 4)
        }),
{
    let sent = context.encoding(version);
    numbers_go_out_little_endian(0, context.psa_key_alg_permission, context.eui64.0);
    assert(address(sent, 3) == address(bytes64(context.eui64.0), 0));
    assert(long(sent, 13) == long(
        bytes32(context.psa_key_alg_permission),
        0,
    ));
    numbers_are_read_little_endian(bytes, 3);
    numbers_are_read_little_endian(bytes, 13);
}

/// An initial security state is forty-three bytes: the flags, the preconfigured
/// key, the network key, its sequence number and the trust centre's address.
pub proof fn security_states_hold_their_fields(
    state: InitialSecurityState,
    at: int,
    version: ProtocolVersion,
)
    requires
        0 <= at < 16,
    ensures
        ({
            let sent = state.encoding(version);
            &&& state.encode_failure(version) is None
            &&& sent.len() == 43
            &&& word(sent, 0) == state.bitmask.0
            &&& sent[2 + at] == state.preconfigured_key@[at]
            &&& sent[18 + at] == state.network_key@[at]
            &&& sent[34] == state.network_key_sequence_number
            &&& address(sent, 35) == state.preconfigured_trust_center_eui64.0
        }),
{
    let sent = state.encoding(version);
    keys_round_trip(state.preconfigured_key, version, seq![]);
    keys_round_trip(state.network_key, version, seq![]);
    numbers_go_out_little_endian(state.bitmask.0, 0, state.preconfigured_trust_center_eui64.0);
    assert(address(sent, 35) == address(
        bytes64(state.preconfigured_trust_center_eui64.0),
        0,
    ));
}

} // verus!
