//! The wire layouts of commands and responses.

use rsezsp::ezsp::codec::{EzspDecode, EzspEncode, Reader, Writer};
use rsezsp::ezsp::command::{
    AddEndpoint, ClearTransientLinkKeysResponse, Command, ExportKey, ExportKeyResponse,
    GetConfigurationValueResponse, GetEui64, GetNetworkParametersResponse, GetValueResponse,
    ImportTransientKey, PermitJoining, PermitJoiningResponse, SendBroadcast, SendUnicast,
    SendUnicastResponse, SetManufacturerCodeResponse, Version, VersionResponse,
};
use rsezsp::types::aps::{ApsFrame, ApsOptions, UnicastType};
use rsezsp::types::network::NetworkParameters;
use rsezsp::types::security::{SecurityKey, SecurityManContext, SecurityManFlags};
use rsezsp::{Eui64, EzspError, NodeId, ProtocolVersion, SlStatus};

fn v13() -> ProtocolVersion {
    ProtocolVersion::new(0x0d)
}

fn v14() -> ProtocolVersion {
    ProtocolVersion::new(0x0e)
}

fn encoded<C: Command>(command: &C, version: ProtocolVersion) -> Vec<u8> {
    let mut out = Writer::new(version);
    command.encode(&mut out).expect("encodes");
    out.into_vec()
}

#[test]
fn version_is_available_even_on_a_version_we_cannot_speak() {
    assert!(Version::is_available(ProtocolVersion::new(0x04)));
    assert!(!GetEui64::is_available(ProtocolVersion::new(0x04)));
}

#[test]
fn the_transient_key_flags_byte_appears_only_below_ezsp_fourteen() {
    let command = ImportTransientKey {
        eui64: Eui64::new(Eui64::WILDCARD),
        key: SecurityKey::zigbee_alliance_09(),
        flags: SecurityManFlags(SecurityManFlags::NONE),
    };

    let v13 = encoded(&command, v13());
    assert_eq!(v13.len(), 25, "v13 carries the flags byte");
    assert_eq!(
        &v13[..8],
        &[0xff; 8],
        "the wildcard address comes first, little-endian"
    );
    assert_eq!(&v13[8..24], b"ZigBeeAlliance09");
    assert_eq!(v13.get(24), Some(&0x00), "then the flags byte");

    let v14 = encoded(&command, v14());
    assert_eq!(v14.len(), 24, "v14 dropped the flags byte");
    assert_eq!(&v14[..8], &[0xff; 8]);
    assert_eq!(&v14[8..], b"ZigBeeAlliance09");
}

#[test]
fn the_unicast_message_tag_widens_at_ezsp_fourteen() {
    let command = SendUnicast {
        unicast_type: UnicastType::Direct,
        index_or_destination: 0x1234,
        aps_frame: ApsFrame::default(),
        message_tag: 0x00ab,
        message: vec![0xde, 0xad],
    };

    let v13 = encoded(&command, v13());
    let v14 = encoded(&command, v14());
    assert_eq!(
        v14.len(),
        v13.len() + 1,
        "the only difference is one byte of tag"
    );
    assert_eq!(v13.get(14), Some(&0xab), "v13: one tag byte");
    assert_eq!(v13.get(15), Some(&0x02), "then the payload length");
    assert_eq!(v14.get(14..16), Some(&[0xab, 0x00][..]), "v14: two, LE");
    assert_eq!(v14.get(16), Some(&0x02));
}

#[test]
fn add_endpoint_sends_both_counts_before_either_list() {
    let command = AddEndpoint {
        endpoint: 1,
        profile_id: 0x0104,
        device_id: 0x0065,
        app_flags: 0,
        input_clusters: vec![0x0000, 0x0006],
        output_clusters: vec![0x0019],
    };
    let bytes = encoded(&command, v13());
    assert_eq!(
        bytes,
        vec![
            0x01,
            0x04, 0x01,
            0x65, 0x00,
            0x00,
            0x02,
            0x01,
            0x00, 0x00, 0x06, 0x00,
            0x19, 0x00,
        ]
    );
}

#[test]
fn permit_joining_clamps_away_from_the_forever_value() {
    assert_eq!(PermitJoining::for_seconds(60).duration, 60);
    assert_eq!(PermitJoining::for_seconds(254).duration, 254);
    assert_eq!(
        PermitJoining::for_seconds(255).duration,
        254,
        "255 must not be reachable by asking for a long time"
    );
    assert_eq!(PermitJoining::close().duration, 0);
    let forever = PermitJoining { duration: 255 };
    assert_eq!(encoded(&forever, v13()), vec![0xff]);
}

#[test]
fn permit_joining_encodes_one_byte_and_reads_a_versioned_status() {
    let command = PermitJoining::for_seconds(240);
    assert_eq!(encoded(&command, v13()), vec![0xf0]);
    let mut v13 = Reader::new(&[0x00], v13());
    assert!(
        PermitJoiningResponse::decode(&mut v13)
            .expect("v13")
            .status
            .is_ok()
    );
    let mut v14 = Reader::new(&[0x00], v14());
    assert!(
        PermitJoiningResponse::decode(&mut v14).is_err(),
        "one byte cannot hold a v14 status, and that must be an error"
    );
}

#[test]
fn a_status_response_reads_the_right_width_for_its_version() {
    let bytes = [0x00, 0x27, 0x00, 0x00];

    let mut v13 = Reader::new(&bytes, v13());
    let response = SendUnicastResponse::decode(&mut v13).expect("v13");
    assert_eq!(response.status, SlStatus(SlStatus::OK));
    assert_eq!(
        response.aps_sequence, 0x27,
        "on v13 the sequence is the byte after a one-byte status"
    );

    let mut v14 = Reader::new(&bytes, v14());
    let response = SendUnicastResponse::decode(&mut v14);
    assert!(
        response.is_err(),
        "on v14 the status eats all four bytes, leaving no sequence -- and \
         that must be an error rather than a fabricated value"
    );
}

#[test]
fn a_version_response_decodes_the_negotiated_version() {
    let bytes = [0x0d, 0x02, 0x44, 0x74];
    let mut reader = Reader::new(&bytes, ProtocolVersion::new(0x04));
    let response = VersionResponse::decode(&mut reader).expect("decodes");
    assert_eq!(response.protocol_version, v13());
    assert_eq!(response.stack_type, 2);
    assert_eq!(response.stack_version, 0x7444);
}

#[test]
fn a_truncated_response_is_an_error_not_a_default() {
    for len in 0..4 {
        let bytes = vec![0u8; len];
        let mut reader = Reader::new(&bytes, ProtocolVersion::new(0x04));
        assert!(
            VersionResponse::decode(&mut reader).is_err(),
            "{len} bytes must not decode into a version"
        );
    }
}

#[test]
fn an_endpoint_with_too_many_clusters_is_refused_not_truncated() {
    let command = AddEndpoint {
        endpoint: 1,
        profile_id: 0x0104,
        device_id: 0x0065,
        app_flags: 0,
        input_clusters: vec![0x0000; 300],
        output_clusters: vec![],
    };
    let mut out = Writer::new(v13());
    assert!(matches!(
        command.encode(&mut out),
        Err(EzspError::PayloadTooLong { .. })
    ));
}
#[test]
fn export_key_reads_the_key_before_the_status() {
    let mut bytes = vec![0xab; 16];
    bytes.extend_from_slice(&[0x00, 0x00, 0x00, 0x00]);
    let mut input = Reader::new(&bytes, v13());
    let response = ExportKeyResponse::decode(&mut input).expect("decodes");

    assert!(response.status.is_ok());
    assert_eq!(response.key.expose(), &[0xab; 16]);
    assert!(input.is_empty());
}

#[test]
fn export_key_status_is_four_bytes_even_on_v13() {
    let mut bytes = vec![0x00; 16];
    bytes.extend_from_slice(&[0x02, 0x00, 0x00, 0x00]);
    let mut input = Reader::new(&bytes, v13());
    let response = ExportKeyResponse::decode(&mut input).expect("decodes");
    assert_eq!(response.status, SlStatus(0x02));
    assert!(input.is_empty(), "a one-byte read would leave three behind");
}

#[test]
fn export_key_asks_for_the_network_key_in_the_documented_layout() {
    let command = ExportKey {
        context: SecurityManContext::network_key(),
    };
    assert_eq!(
        encoded(&command, v13()),
        vec![
            0x01,
            0x00,
            0x00,
            0x00, 0x00, 0x00, 0x00, 0x00, 0x00, 0x00, 0x00,
            0x00,
            0x00,
            0x00, 0x00, 0x00, 0x00,
        ],
        "the trailing four bytes are unused for this key type but still \
         shift the status if omitted"
    );
}

#[test]
fn network_parameters_round_trip_through_the_wire_layout() {
    let parameters = NetworkParameters {
        extended_pan_id: [0x11, 0x22, 0x33, 0x44, 0x55, 0x66, 0x77, 0x88],
        pan_id: 0x1a62,
        radio_tx_power: -3,
        radio_channel: 15,
        join_method: 0,
        nwk_manager_id: 0x0000,
        nwk_update_id: 7,
        channels: 0x07ff_f800,
    };

    let mut out = Writer::new(v13());
    parameters.encode(&mut out).expect("encodes");
    let bytes = out.into_vec();
    assert_eq!(bytes.len(), 8 + 2 + 1 + 1 + 1 + 2 + 1 + 4);
    assert_eq!(
        bytes.get(10).copied(),
        Some(0xfd),
        "-3 dBm as a signed byte"
    );

    let mut input = Reader::new(&bytes, v13());
    let decoded = NetworkParameters::decode(&mut input).expect("decodes");
    assert_eq!(decoded, parameters);
    assert_eq!(decoded.radio_tx_power, -3, "transmit power is signed");
    assert!(input.is_empty());
}

#[test]
fn get_network_parameters_decodes_a_coordinator_on_a_network() {
    let mut bytes = vec![0x00, 0x01];
    bytes.extend_from_slice(&[0x11, 0x22, 0x33, 0x44, 0x55, 0x66, 0x77, 0x88]);
    bytes.extend_from_slice(&[0x62, 0x1a]);
    bytes.extend_from_slice(&[0x00, 0x0f, 0x00]);
    bytes.extend_from_slice(&[0x00, 0x00, 0x00]);
    bytes.extend_from_slice(&[0x00, 0xf8, 0xff, 0x07]);

    let mut input = Reader::new(&bytes, v13());
    let response = GetNetworkParametersResponse::decode(&mut input).expect("decodes");
    assert!(response.status.is_ok());
    assert_eq!(response.node_type, 1);
    assert_eq!(response.parameters.pan_id, 0x1a62);
    assert_eq!(response.parameters.radio_channel, 15);
    assert!(input.is_empty(), "trailing bytes would mean a wrong width");
}

#[test]
fn a_broadcast_message_tag_follows_the_same_boundary_as_a_unicast() {
    let command = SendBroadcast {
        destination: NodeId(NodeId::BROADCAST_RX_ON_WHEN_IDLE),
        aps_frame: ApsFrame {
            profile_id: 0x0000,
            cluster_id: 0x0036,
            source_endpoint: 0,
            destination_endpoint: 0,
            options: ApsOptions(0x0000),
            group_id: 0,
            sequence: 0,
        },
        radius: 0,
        message_tag: 0x0001,
        message: vec![0x42],
    };
    assert_eq!(encoded(&command, v13()).len(), 2 + 11 + 1 + 1 + 1 + 1);
    assert_eq!(encoded(&command, v14()).len(), 2 + 11 + 1 + 2 + 1 + 1);
}

#[test]
fn commands_that_answer_with_nothing_decode_an_empty_response() {
    let mut input = Reader::new(&[], v13());
    assert!(ClearTransientLinkKeysResponse::decode(&mut input).is_ok());
    let mut input = Reader::new(&[], v13());
    assert!(SetManufacturerCodeResponse::decode(&mut input).is_ok());
}

#[test]
fn get_configuration_value_reads_the_status_at_the_version_width() {
    let narrow = [0x00, 0x02, 0x00];
    let mut input = Reader::new(&narrow, v13());
    let response = GetConfigurationValueResponse::decode(&mut input).expect("v13");
    assert!(response.status.is_ok());
    assert_eq!(response.value, 2, "the stack profile we set during bringup");
    assert!(input.is_empty());

    let wide = [0x00, 0x00, 0x00, 0x00, 0x02, 0x00];
    let mut input = Reader::new(&wide, v14());
    let response = GetConfigurationValueResponse::decode(&mut input).expect("v14");
    assert_eq!(response.value, 2);
    assert!(input.is_empty());
}

#[test]
fn get_value_hands_back_its_bytes_through_the_length_prefix() {
    let bytes = [0x00, 0x04, 0x07, 0x04, 0x04, 0x00];
    let mut input = Reader::new(&bytes, v13());
    let response = GetValueResponse::decode(&mut input).expect("decodes");
    assert!(response.status.is_ok());
    assert_eq!(response.value, vec![0x07, 0x04, 0x04, 0x00]);
    assert!(input.is_empty());
}

#[test]
fn the_new_responses_refuse_truncated_input_rather_than_guessing() {
    for len in 0..19 {
        let bytes = vec![0u8; len];
        let mut input = Reader::new(&bytes, v13());
        assert!(
            ExportKeyResponse::decode(&mut input).is_err(),
            "{len} bytes must not decode as an exported key"
        );
    }
    for len in 0..18 {
        let bytes = vec![0u8; len];
        let mut input = Reader::new(&bytes, v13());
        assert!(
            GetNetworkParametersResponse::decode(&mut input).is_err(),
            "{len} bytes must not decode as network parameters"
        );
    }
}
