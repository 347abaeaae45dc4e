//! Commands and their answers, byte by byte.

use vstd::prelude::*;

use crate::ezsp::codec::{bytes32, Extent, EzspDecode, EzspEncode};
use crate::ezsp::command::{
    both_counts_precede_both_lists, command_ids, tag_bytes, AddEndpoint, AddEndpointResponse,
    ClearTransientLinkKeys, ClearTransientLinkKeysResponse, Command, ExportKey, ExportKeyResponse,
    FormNetwork, FormNetworkResponse, GetConfigurationValue, GetConfigurationValueResponse,
    GetEui64, GetEui64Response, GetNetworkKeyInfo, GetNetworkKeyInfoResponse, GetNetworkParameters,
    GetNetworkParametersResponse, GetValue, GetValueResponse, ImportTransientKey,
    ImportTransientKeyResponse, NetworkInit, NetworkInitResponse, NetworkState,
    NetworkStateResponse, PermitJoining, PermitJoiningResponse, SendBroadcast,
    SendBroadcastResponse, SendMulticast, SendMulticastResponse, SendUnicast, SendUnicastResponse,
    SetConfigurationValue, SetConfigurationValueResponse, SetInitialSecurityState,
    SetInitialSecurityStateResponse, SetManufacturerCode, SetManufacturerCodeResponse, SetPolicy,
    SetPolicyResponse, Version, VersionResponse,
};
use crate::ezsp::error::EzspError;
use crate::ezsp::version::ProtocolVersion;
use crate::laws::bytes::{
    address, cut_inside, long, numbers_are_read_little_endian, numbers_go_out_little_endian, word,
};
use crate::laws::values::{
    aps_headers_hold_their_fields, are_network_parameters, contexts_hold_their_fields,
    is_aps_header, is_context, network_parameters_hold_their_fields, status_len, status_number,
    statuses_are_their_numbers,
};
use crate::types::network::bytes64;
use crate::types::security::keys_round_trip;

verus! {

/// Every command goes out under its documented number.
pub proof fn commands_have_their_numbers()
    ensures
        Version::ID == 0x0000,
        GetEui64::ID == 0x0026,
        NetworkInit::ID == 0x0017,
        PermitJoining::ID == 0x0022,
        SetConfigurationValue::ID == 0x0053,
        SetPolicy::ID == 0x0055,
        AddEndpoint::ID == 0x0002,
        SendUnicast::ID == 0x0034,
        ImportTransientKey::ID == 0x0111,
        GetConfigurationValue::ID == 0x0052,
        GetValue::ID == 0x00aa,
        SetManufacturerCode::ID == 0x0015,
        ClearTransientLinkKeys::ID == 0x006b,
        GetNetworkParameters::ID == 0x0028,
        SetInitialSecurityState::ID == 0x0068,
        FormNetwork::ID == 0x001e,
        ExportKey::ID == 0x0114,
        SendBroadcast::ID == 0x0036,
        NetworkState::ID == 0x0018,
        SendMulticast::ID == 0x0038,
        GetNetworkKeyInfo::ID == 0x0116,
{
    command_ids();
}

/// `version` is offered at every version, and every other command at those that
/// are spoken.
pub proof fn commands_are_offered_where_spoken(version: ProtocolVersion, yes: bool)
    ensures
        call_ensures(Version::is_available, (version,), yes) ==> yes,
        ({
            let spoken = 13 <= version.0 && version.0 <= 19;
            &&& call_ensures(GetEui64::is_available, (version,), yes) ==> (yes <==> spoken)
            &&& call_ensures(NetworkInit::is_available, (version,), yes) ==> (yes <==> spoken)
            &&& call_ensures(PermitJoining::is_available, (version,), yes) ==> (yes <==> spoken)
            &&& call_ensures(SetConfigurationValue::is_available, (version,), yes) ==> (yes
                <==> spoken)
            &&& call_ensures(SetPolicy::is_available, (version,), yes) ==> (yes <==> spoken)
            &&& call_ensures(AddEndpoint::is_available, (version,), yes) ==> (yes <==> spoken)
            &&& call_ensures(SendUnicast::is_available, (version,), yes) ==> (yes <==> spoken)
            &&& call_ensures(ImportTransientKey::is_available, (version,), yes) ==> (yes
                <==> spoken)
            &&& call_ensures(GetConfigurationValue::is_available, (version,), yes) ==> (yes
                <==> spoken)
            &&& call_ensures(GetValue::is_available, (version,), yes) ==> (yes <==> spoken)
            &&& call_ensures(SetManufacturerCode::is_available, (version,), yes) ==> (yes
                <==> spoken)
            &&& call_ensures(ClearTransientLinkKeys::is_available, (version,), yes) ==> (yes
                <==> spoken)
            &&& call_ensures(GetNetworkParameters::is_available, (version,), yes) ==> (yes
                <==> spoken)
            &&& call_ensures(SetInitialSecurityState::is_available, (version,), yes) ==> (yes
                <==> spoken)
            &&& call_ensures(FormNetwork::is_available, (version,), yes) ==> (yes <==> spoken)
            &&& call_ensures(ExportKey::is_available, (version,), yes) ==> (yes <==> spoken)
            &&& call_ensures(SendBroadcast::is_available, (version,), yes) ==> (yes <==> spoken)
            &&& call_ensures(NetworkState::is_available, (version,), yes) ==> (yes <==> spoken)
            &&& call_ensures(SendMulticast::is_available, (version,), yes) ==> (yes <==> spoken)
            &&& call_ensures(GetNetworkKeyInfo::is_available, (version,), yes) ==> (yes <==> spoken)
        }),
{
}

/// The commands without parameters write nothing and never fail.
pub proof fn plain_requests_have_no_parameters(version: ProtocolVersion)
    ensures
        GetEui64.encoding(version).len() == 0,
        GetEui64.encode_failure(version) is None,
        ClearTransientLinkKeys.encoding(version).len() == 0,
        ClearTransientLinkKeys.encode_failure(version) is None,
        GetNetworkParameters.encoding(version).len() == 0,
        GetNetworkParameters.encode_failure(version) is None,
        NetworkState.encoding(version).len() == 0,
        NetworkState.encode_failure(version) is None,
        GetNetworkKeyInfo.encoding(version).len() == 0,
        GetNetworkKeyInfo.encode_failure(version) is None,
{
}

/// The commands with one or two plain parameters write them in order.
pub proof fn small_commands_write_their_fields(
    offer: Version,
    init: NetworkInit,
    joining: PermitJoining,
    configuration: SetConfigurationValue,
    policy: SetPolicy,
    configured: GetConfigurationValue,
    value: GetValue,
    manufacturer: SetManufacturerCode,
    version: ProtocolVersion,
)
    ensures
        offer.encoding(version) == seq![offer.desired.0],
        offer.encode_failure(version) is None,
        init.encoding(version).len() == 2,
        word(init.encoding(version), 0) == init.bitmask.0,
        init.encode_failure(version) is None,
        joining.encoding(version) == seq![joining.duration],
        joining.encode_failure(version) is None,
        configuration.encoding(version).len() == 3,
        configuration.encoding(version)[0] == configuration.config_id.0,
        word(configuration.encoding(version), 1) == configuration.value,
        configuration.encode_failure(version) is None,
        policy.encoding(version) == seq![policy.policy_id.0, policy.decision.0],
        policy.encode_failure(version) is None,
        configured.encoding(version) == seq![configured.config_id.0],
        configured.encode_failure(version) is None,
        value.encoding(version) == seq![value.value_id.0],
        value.encode_failure(version) is None,
        manufacturer.encoding(version).len() == 2,
        word(manufacturer.encoding(version), 0) == manufacturer.code,
        manufacturer.encode_failure(version) is None,
{
    numbers_go_out_little_endian(init.bitmask.0, 0, 0);
    numbers_go_out_little_endian(configuration.value, 0, 0);
    numbers_go_out_little_endian(manufacturer.code, 0, 0);
}

/// The commands that carry one structure write it and nothing else.
pub proof fn structured_commands_write_their_structure(
    form: FormNetwork,
    export: ExportKey,
    security: SetInitialSecurityState,
    version: ProtocolVersion,
)
    ensures
        form.encoding(version).len() == 20,
        are_network_parameters(form.encoding(version), form.parameters),
        form.encode_failure(version) is None,
        export.encoding(version).len() == 17,
        is_context(export.encoding(version), export.context),
        export.encode_failure(version) is None,
        security.encoding(version) == security.state.encoding(version),
        security.encode_failure(version) is None,
{
    network_parameters_hold_their_fields(form.parameters, seq![], version);
    contexts_hold_their_fields(export.context, seq![], version);
}

/// A transient key is sent as the address, the key in order, and below version
/// 14 the flags.
pub proof fn transient_keys_are_laid_out(
    command: ImportTransientKey,
    at: int,
    version: ProtocolVersion,
)
    requires
        0 <= at < 16,
    ensures
        ({
            let sent = command.encoding(version);
            &&& command.encode_failure(version) is None
            &&& sent.len() == if version.0 >= 14 { 24nat } else { 25nat }
            &&& address(sent, 0) == command.eui64.0
            &&& sent[8 + at] == command.key@[at]
            &&& version.0 < 14 ==> sent[24] == command.flags.0
        }),
{
    let sent = command.encoding(version);
    keys_round_trip(command.key, version, seq![]);
    numbers_go_out_little_endian(0, 0, command.eui64.0);
    assert(address(sent, 0) == address(bytes64(command.eui64.0), 0));
}

/// How many bytes a message tag takes: two from version 14 on, one before.
pub open spec fn tag_len(version: ProtocolVersion) -> int {
    if version.0 >= 14 {
        2
    } else {
        1
    }
}

/// Whether parameters end in a tag at `at`, then the length of a message, then
/// the message; where the message is too long for its length, they end behind
/// the tag. A tag of one byte is the low byte.
pub open spec fn ends_in_message(
    sent: Seq<u8>,
    at: int,
    tag: u16,
    message: Seq<u8>,
    version: ProtocolVersion,
) -> bool {
    let behind = at + tag_len(version);
    &&& if version.0 >= 14 {
        word(sent, at) == tag
    } else {
        sent[at] == tag % 256
    }
    &&& if message.len() <= 255 {
        &&& sent.len() == behind + 1 + message.len()
        &&& sent[behind] == message.len()
        &&& forall|i: int| 0 <= i < message.len() ==> #[trigger] message[i] == sent[behind + 1 + i]
    } else {
        sent.len() == behind
    }
}

/// Why a message cannot be sent: its length does not fit in one byte.
pub open spec fn message_refusal(message: Seq<u8>) -> Option<EzspError> {
    if message.len() <= 255 {
        None
    } else {
        Some(EzspError::PayloadTooLong { length: message.len() as usize, limit: 255 })
    }
}

/// A unicast is the type, the destination, the APS header, the tag and the
/// message, in that order.
pub proof fn unicasts_are_laid_out(command: SendUnicast, version: ProtocolVersion)
    ensures
        ({
            let sent = command.encoding(version);
            &&& command.encode_failure(version) == message_refusal(command.message@)
            &&& sent.len() >= 14
            &&& sent[0] == command.unicast_type.wire_value()
            &&& word(sent, 1) == command.index_or_destination
            &&& is_aps_header(sent.subrange(3, 14), command.aps_frame)
            &&& ends_in_message(sent, 14, command.message_tag, command.message@, version)
        }),
{
    let sent = command.encoding(version);
    let header = command.aps_frame.encoding(version);
    numbers_go_out_little_endian(command.index_or_destination, 0, 0);
    aps_headers_hold_their_fields(command.aps_frame, seq![], version);
    assert(sent.subrange(3, 14) =~= header);
    let tag = tag_bytes(command.message_tag, version);
    numbers_go_out_little_endian(command.message_tag, 0, 0);
    assert(sent.subrange(14, 14 + tag_len(version)) =~= tag);
    assert(sent[14] == tag[0]);
    assert(version.0 >= 14 ==> sent[15] == tag[1]);
}

/// A broadcast is the destination, the APS header, the radius, the tag and the
/// message, in that order.
pub proof fn broadcasts_are_laid_out(command: SendBroadcast, version: ProtocolVersion)
    ensures
        ({
            let sent = command.encoding(version);
            &&& command.encode_failure(version) == message_refusal(command.message@)
            &&& sent.len() >= 14
            &&& word(sent, 0) == command.destination.0
            &&& is_aps_header(sent.subrange(2, 13), command.aps_frame)
            &&& sent[13] == command.radius
            &&& ends_in_message(sent, 14, command.message_tag, command.message@, version)
        }),
{
    let sent = command.encoding(version);
    let header = command.aps_frame.encoding(version);
    numbers_go_out_little_endian(command.destination.0, 0, 0);
    aps_headers_hold_their_fields(command.aps_frame, seq![], version);
    assert(sent.subrange(2, 13) =~= header);
    let tag = tag_bytes(command.message_tag, version);
    numbers_go_out_little_endian(command.message_tag, 0, 0);
    assert(sent.subrange(14, 14 + tag_len(version)) =~= tag);
    assert(sent[14] == tag[0]);
    assert(version.0 >= 14 ==> sent[15] == tag[1]);
}

/// A multicast is the APS header, the hops, the radius among non-members, the
/// tag and the message, in that order.
pub proof fn multicasts_are_laid_out(command: SendMulticast, version: ProtocolVersion)
    ensures
        ({
            let sent = command.encoding(version);
            &&& command.encode_failure(version) == message_refusal(command.message@)
            &&& sent.len() >= 13
            &&& is_aps_header(sent.subrange(0, 11), command.aps_frame)
            &&& sent[11] == command.hops
            &&& sent[12] == command.nonmember_radius
            &&& ends_in_message(sent, 13, command.message_tag, command.message@, version)
        }),
{
    let sent = command.encoding(version);
    let header = command.aps_frame.encoding(version);
    aps_headers_hold_their_fields(command.aps_frame, seq![], version);
    assert(sent.subrange(0, 11) =~= header);
    let tag = tag_bytes(command.message_tag, version);
    numbers_go_out_little_endian(command.message_tag, 0, 0);
    assert(sent.subrange(13, 13 + tag_len(version)) =~= tag);
    assert(sent[13] == tag[0]);
    assert(version.0 >= 14 ==> sent[14] == tag[1]);
}

/// An endpoint is announced by its number, profile, device, flags, both counts
/// and both lists of clusters, inputs first; a list that one byte cannot count
/// is refused, the inputs before the outputs, with nothing behind the flags.
pub proof fn endpoints_are_laid_out(command: AddEndpoint, version: ProtocolVersion)
    ensures
        ({
            let sent = command.encoding(version);
            let inputs = command.input_clusters@;
            let outputs = command.output_clusters@;
            &&& sent.len() >= 6
            &&& sent[0] == command.endpoint
            &&& word(sent, 1) == command.profile_id
            &&& word(sent, 3) == command.device_id
            &&& sent[5] == command.app_flags
            &&& if inputs.len() > 255 {
                &&& sent.len() == 6
                &&& command.encode_failure(version) == Some(
                    EzspError::PayloadTooLong { length: inputs.len() as usize, limit: 255 },
                )
            } else if outputs.len() > 255 {
                &&& sent.len() == 6
                &&& command.encode_failure(version) == Some(
                    EzspError::PayloadTooLong { length: outputs.len() as usize, limit: 255 },
                )
            } else {
                &&& command.encode_failure(version) is None
                &&& sent.len() == 8 + 2 * inputs.len() + 2 * outputs.len()
                &&& sent[6] == inputs.len()
                &&& sent[7] == outputs.len()
                &&& forall|i: int|
                    0 <= i < inputs.len() ==> #[trigger] inputs[i] == word(sent, 8 + 2 * i)
                &&& forall|i: int|
                    0 <= i < outputs.len() ==> #[trigger] outputs[i] == word(
                        sent,
                        8 + 2 * inputs.len() + 2 * i,
                    )
            }
        }),
{
    let sent = command.encoding(version);
    let inputs = command.input_clusters@;
    let outputs = command.output_clusters@;
    numbers_go_out_little_endian(command.profile_id, 0, 0);
    numbers_go_out_little_endian(command.device_id, 0, 0);
    let preamble = command.preamble();
    assert(sent.take(6) =~= preamble);
    assert forall|i: int| 0 <= i < 6 implies sent[i] == preamble[i] by {
        assert(sent.take(6)[i] == sent[i]);
    }
    if inputs.len() <= 255 && outputs.len() <= 255 {
        both_counts_precede_both_lists(command, version);
        assert forall|i: int| 0 <= i < inputs.len() implies #[trigger] inputs[i] == word(
            sent,
            8 + 2 * i,
        ) by {
            numbers_are_read_little_endian(sent, 8 + 2 * i);
        }
        assert forall|i: int| 0 <= i < outputs.len() implies #[trigger] outputs[i] == word(
            sent,
            8 + 2 * inputs.len() + 2 * i,
        ) by {
            numbers_are_read_little_endian(sent, 8 + 2 * inputs.len() + 2 * i);
        }
    }
}

/// The answer to `version`: protocol version, stack type and stack version, in
/// four bytes.
pub proof fn version_answers_are_laid_out(
    answer: VersionResponse,
    bytes: Seq<u8>,
    version: ProtocolVersion,
)
    ensures
        answer.read_from(bytes, version) ==> {
            &&& answer.protocol_version.0 == bytes[0]
            &&& answer.stack_type == bytes[1]
            &&& answer.stack_version == word(bytes, 2)
        },
        ({
            let n = bytes.len();
            let extent = VersionResponse::extent(bytes, version);
            &&& n >= 4 ==> extent == Extent::Whole(4)
            &&& cut_inside(extent, n, 0, 1)
            &&& cut_inside(extent, n, 1, 1)
            &&& cut_inside(extent, n, 2, 2)
        }),
{
}

/// An exported key is answered with the key's sixteen bytes in order and then a
/// status of four bytes, at every version.
pub proof fn key_answers_are_laid_out(
    answer: ExportKeyResponse,
    key: Seq<u8>,
    status: u32,
    behind: Seq<u8>,
    version: ProtocolVersion,
)
    requires
        key.len() == 16,
    ensures
        ({
            let sent = key + seq![
                (status % 256) as u8,
                ((status / 256) % 256) as u8,
                ((status / 65536) % 256) as u8,
                (status / 16777216) as u8,
            ] + behind;
            &&& ExportKeyResponse::extent(sent, version) == Extent::Whole(20)
            &&& answer.read_from(sent, version) ==> answer.key@ == key && answer.status.0 == status
        }),
        ({
            let n = behind.len();
            let extent = ExportKeyResponse::extent(behind, version);
            &&& cut_inside(extent, n, 0, 16)
            &&& cut_inside(extent, n, 16, 4)
        }),
{
    let four = seq![
        (status % 256) as u8,
        ((status / 256) % 256) as u8,
        ((status / 65536) % 256) as u8,
        (status / 16777216) as u8,
    ];
    let sent = key + four + behind;
    assert(sent.take(16) =~= key);
    numbers_go_out_little_endian(0, status, 0);
    assert(four =~= bytes32(status));
    assert(long(sent, 16) == long(four, 0));
    numbers_are_read_little_endian(sent, 16);
}

/// The facts on the network key: a status of four bytes, two flags that any
/// number but zero sets, two sequence numbers and the frame counter.
pub proof fn key_facts_are_laid_out(
    answer: GetNetworkKeyInfoResponse,
    bytes: Seq<u8>,
    version: ProtocolVersion,
)
    ensures
        answer.read_from(bytes, version) ==> {
            &&& answer.status.0 == long(bytes, 0)
            &&& answer.network_key_set <==> bytes[4] != 0
            &&& answer.alternate_network_key_set <==> bytes[5] != 0
            &&& answer.network_key_sequence_number == bytes[6]
            &&& answer.alt_network_key_sequence_number == bytes[7]
            &&& answer.network_key_frame_counter == long(bytes, 8)
        },
        ({
            let n = bytes.len();
            let extent = GetNetworkKeyInfoResponse::extent(bytes, version);
            &&& n >= 12 ==> extent == Extent::Whole(12)
            &&& cut_inside(extent, n, 0, 4)
            &&& cut_inside(extent, n, 4, 1)
            &&& cut_inside(extent, n, 5, 1)
            &&& cut_inside(extent, n, 6, 1)
            &&& cut_inside(extent, n, 7, 1)
            &&& cut_inside(extent, n, 8, 4)
        }),
{
    numbers_are_read_little_endian(bytes, 0);
    numbers_are_read_little_endian(bytes, 8);
}

/// The network's parameters are answered with a status, the node type and the
/// parameters.
pub proof fn network_answers_are_laid_out(
    answer: GetNetworkParametersResponse,
    bytes: Seq<u8>,
    version: ProtocolVersion,
)
    ensures
        ({
            let n = bytes.len();
            let width = status_len(version);
            let extent = GetNetworkParametersResponse::extent(bytes, version);
            &&& n >= width + 21 ==> extent == Extent::Whole(width + 21)
            &&& cut_inside(extent, n, 0, width)
            &&& cut_inside(extent, n, width, 1)
            &&& cut_inside(extent, n, width + 1, 8)
            &&& cut_inside(extent, n, width + 9, 2)
            &&& cut_inside(extent, n, width + 11, 1)
            &&& cut_inside(extent, n, width + 12, 1)
            &&& cut_inside(extent, n, width + 13, 1)
            &&& cut_inside(extent, n, width + 14, 2)
            &&& cut_inside(extent, n, width + 16, 1)
            &&& cut_inside(extent, n, width + 17, 4)
            &&& n >= width + 21 && answer.read_from(bytes, version) ==> {
                &&& answer.status.0 == status_number(bytes, 0, version)
                &&& answer.node_type == bytes[width as int]
                &&& are_network_parameters(bytes.skip(width as int + 1), answer.parameters)
            }
        }),
{
    let width = status_len(version) as int;
    statuses_are_their_numbers(bytes, 0, version);
    if bytes.len() >= width + 1 {
        network_parameters_hold_their_fields(answer.parameters, bytes.skip(width + 1), version);
    }
}

/// The short answers: an address; a network state; the status of the security
/// manager, four bytes wide at every version; and nothing.
pub proof fn short_answers_are_laid_out(
    address_answer: GetEui64Response,
    state_answer: NetworkStateResponse,
    key_answer: ImportTransientKeyResponse,
    bytes: Seq<u8>,
    version: ProtocolVersion,
)
    ensures
        address_answer.read_from(bytes, version) ==> address_answer.eui64.0 == address(bytes, 0),
        bytes.len() >= 8 ==> GetEui64Response::extent(bytes, version) == Extent::Whole(8),
        cut_inside(GetEui64Response::extent(bytes, version), bytes.len(), 0, 8),
        state_answer.read_from(bytes, version) ==> state_answer.state.0 == bytes[0],
        bytes.len() >= 1 ==> NetworkStateResponse::extent(bytes, version) == Extent::Whole(1),
        cut_inside(NetworkStateResponse::extent(bytes, version), bytes.len(), 0, 1),
        key_answer.read_from(bytes, version) ==> key_answer.status.0 == long(bytes, 0),
        bytes.len() >= 4 ==> ImportTransientKeyResponse::extent(bytes, version) == Extent::Whole(
            4,
        ),
        cut_inside(ImportTransientKeyResponse::extent(bytes, version), bytes.len(), 0, 4),
        SetManufacturerCodeResponse::extent(bytes, version) == Extent::Whole(0),
        ClearTransientLinkKeysResponse::extent(bytes, version) == Extent::Whole(0),
{
    numbers_are_read_little_endian(bytes, 0);
}

/// The answers that are a status, at the width of the version.
pub proof fn status_answers_are_laid_out(
    init: NetworkInitResponse,
    joining: PermitJoiningResponse,
    configuration: SetConfigurationValueResponse,
    policy: SetPolicyResponse,
    endpoint: AddEndpointResponse,
    security: SetInitialSecurityStateResponse,
    form: FormNetworkResponse,
    bytes: Seq<u8>,
    version: ProtocolVersion,
)
    ensures
        ({
            let n = bytes.len();
            let width = status_len(version);
            let number = status_number(bytes, 0, version);
            &&& init.read_from(bytes, version) ==> init.status.0 == number
            &&& n >= width ==> NetworkInitResponse::extent(bytes, version) == Extent::Whole(width)
            &&& cut_inside(NetworkInitResponse::extent(bytes, version), n, 0, width)
            &&& joining.read_from(bytes, version) ==> joining.status.0 == number
            &&& n >= width ==> PermitJoiningResponse::extent(bytes, version)
                == Extent::Whole(width)
            &&& cut_inside(PermitJoiningResponse::extent(bytes, version), n, 0, width)
            &&& configuration.read_from(bytes, version) ==> configuration.status.0 == number
            &&& n >= width ==> SetConfigurationValueResponse::extent(bytes, version)
                == Extent::Whole(width)
            &&& cut_inside(SetConfigurationValueResponse::extent(bytes, version), n, 0, width)
            &&& policy.read_from(bytes, version) ==> policy.status.0 == number
            &&& n >= width ==> SetPolicyResponse::extent(bytes, version) == Extent::Whole(width)
            &&& cut_inside(SetPolicyResponse::extent(bytes, version), n, 0, width)
            &&& endpoint.read_from(bytes, version) ==> endpoint.status.0 == number
            &&& n >= width ==> AddEndpointResponse::extent(bytes, version) == Extent::Whole(width)
            &&& cut_inside(AddEndpointResponse::extent(bytes, version), n, 0, width)
            &&& security.read_from(bytes, version) ==> security.status.0 == number
            &&& n >= width ==> SetInitialSecurityStateResponse::extent(bytes, version)
                == Extent::Whole(width)
            &&& cut_inside(SetInitialSecurityStateResponse::extent(bytes, version), n, 0, width)
            &&& form.read_from(bytes, version) ==> form.status.0 == number
            &&& n >= width ==> FormNetworkResponse::extent(bytes, version) == Extent::Whole(width)
            &&& cut_inside(FormNetworkResponse::extent(bytes, version), n, 0, width)
        }),
{
    statuses_are_their_numbers(bytes, 0, version);
}

/// The answers to the send commands: a status and the APS sequence number.
pub proof fn send_answers_are_laid_out(
    unicast: SendUnicastResponse,
    broadcast: SendBroadcastResponse,
    multicast: SendMulticastResponse,
    bytes: Seq<u8>,
    version: ProtocolVersion,
)
    ensures
        ({
            let n = bytes.len();
            let width = status_len(version);
            let number = status_number(bytes, 0, version);
            &&& unicast.read_from(bytes, version) ==> {
                &&& unicast.status.0 == number
                &&& unicast.aps_sequence == bytes[width as int]
            }
            &&& n >= width + 1 ==> SendUnicastResponse::extent(bytes, version)
                == Extent::Whole(width + 1)
            &&& cut_inside(SendUnicastResponse::extent(bytes, version), n, 0, width)
            &&& cut_inside(SendUnicastResponse::extent(bytes, version), n, width, 1)
            &&& broadcast.read_from(bytes, version) ==> {
                &&& broadcast.status.0 == number
                &&& broadcast.aps_sequence == bytes[width as int]
            }
            &&& n >= width + 1 ==> SendBroadcastResponse::extent(bytes, version)
                == Extent::Whole(width + 1)
            &&& cut_inside(SendBroadcastResponse::extent(bytes, version), n, 0, width)
            &&& cut_inside(SendBroadcastResponse::extent(bytes, version), n, width, 1)
            &&& multicast.read_from(bytes, version) ==> {
                &&& multicast.status.0 == number
                &&& multicast.aps_sequence == bytes[width as int]
            }
            &&& n >= width + 1 ==> SendMulticastResponse::extent(bytes, version)
                == Extent::Whole(width + 1)
            &&& cut_inside(SendMulticastResponse::extent(bytes, version), n, 0, width)
            &&& cut_inside(SendMulticastResponse::extent(bytes, version), n, width, 1)
        }),
{
    statuses_are_their_numbers(bytes, 0, version);
}

/// The answers that read a value: a status, then a number of two bytes, or then
/// a length and that many bytes, in order.
pub proof fn value_answers_are_laid_out(
    configured: GetConfigurationValueResponse,
    value: GetValueResponse,
    bytes: Seq<u8>,
    version: ProtocolVersion,
)
    ensures
        ({
            let n = bytes.len();
            let width = status_len(version);
            let extent = GetConfigurationValueResponse::extent(bytes, version);
            &&& configured.read_from(bytes, version) ==> {
                &&& configured.status.0 == status_number(bytes, 0, version)
                &&& configured.value == word(bytes, width as int)
            }
            &&& n >= width + 2 ==> extent == Extent::Whole(width + 2)
            &&& cut_inside(extent, n, 0, width)
            &&& cut_inside(extent, n, width, 2)
        }),
        ({
            let n = bytes.len();
            let width = status_len(version);
            let length = bytes[width as int] as nat;
            let extent = GetValueResponse::extent(bytes, version);
            &&& cut_inside(extent, n, 0, width)
            &&& cut_inside(extent, n, width, 1)
            &&& width + 1 <= n < width + 1 + length ==> extent == (Extent::Fails {
                consumed: width,
                error: EzspError::TruncatedFrame {
                    needed: length as usize,
                    available: (n - width - 1) as usize,
                },
            })
            &&& n > width && n >= width + 1 + length ==> extent == Extent::Whole(
                width + 1 + length,
            )
            &&& n > width && n >= width + 1 + length && value.read_from(bytes, version) ==> {
                &&& value.status.0 == status_number(bytes, 0, version)
                &&& value.value@.len() == length
                &&& forall|i: int|
                    0 <= i < length ==> #[trigger] value.value@[i] == bytes[width + 1 + i]
            }
        }),
{
    statuses_are_their_numbers(bytes, 0, version);
}

} // verus!
