//! Keys, and what never shows of them.

use rsezsp::ezsp::codec::{EzspEncode, Writer};
use rsezsp::types::security::{InitialSecurityBitmask, InitialSecurityState, SecurityKey};
use rsezsp::{Eui64, FrameId, ProtocolVersion};

#[test]
fn the_well_known_key_is_the_specified_ascii() {
    assert_eq!(
        SecurityKey::zigbee_alliance_09().expose(),
        b"ZigBeeAlliance09"
    );
    assert_eq!(SecurityKey::zigbee_alliance_09().expose().len(), 16);
}

#[test]
fn a_key_never_prints_itself() {
    let key = SecurityKey::new([0xab; 16]);
    let debug = format!("{key:?}");
    assert!(debug.contains("redacted"), "{debug}");
    assert!(!debug.contains("171") && !debug.contains("ab"), "{debug}");
    assert_eq!(key.to_string(), "<redacted>");
}

#[test]
fn a_key_encodes_as_sixteen_raw_bytes() {
    let mut out = Writer::new(ProtocolVersion::new(0x0d));
    SecurityKey::zigbee_alliance_09()
        .encode(&mut out)
        .expect("encodes");
    assert_eq!(out.as_slice(), b"ZigBeeAlliance09");
}

#[test]
fn a_key_never_renders_its_bytes() {
    let key = SecurityKey::new([0xab; 16]);
    for rendered in [format!("{key:?}"), key.to_string()] {
        assert!(!rendered.contains("ab"), "key bytes leaked: {rendered}");
        assert!(rendered.contains("redacted"), "{rendered}");
    }
}

#[test]
fn a_struct_containing_a_key_redacts_it_too() {
    let state = InitialSecurityState {
        bitmask: InitialSecurityBitmask(InitialSecurityBitmask::HAVE_NETWORK_KEY),
        preconfigured_key: SecurityKey::new([0x11; 16]),
        network_key: SecurityKey::new([0x22; 16]),
        network_key_sequence_number: 0,
        preconfigured_trust_center_eui64: Eui64::new(0),
    };
    let rendered = format!("{state:?}");
    assert!(!rendered.contains("11"), "leaked: {rendered}");
    assert!(!rendered.contains("22"), "leaked: {rendered}");
}

#[test]
fn every_frame_carrying_a_key_is_marked_for_redaction() {
    for frame_id in [
        FrameId(FrameId::EXPORT_KEY),
        FrameId(FrameId::IMPORT_TRANSIENT_KEY),
        FrameId(FrameId::SET_INITIAL_SECURITY_STATE),
        FrameId(FrameId::GET_NETWORK_KEY_INFO),
    ] {
        assert!(
            frame_id.carries_key_material(),
            "{frame_id:?} carries key material and must be redacted in logs"
        );
    }
    for frame_id in [
        FrameId(FrameId::VERSION),
        FrameId(FrameId::GET_EUI64),
        FrameId(FrameId::SEND_UNICAST),
        FrameId(FrameId::NETWORK_INIT),
    ] {
        assert!(!frame_id.carries_key_material(), "{frame_id:?}");
    }
}
