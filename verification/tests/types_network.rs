//! Addresses and policies.

use rsezsp::ezsp::codec::{EzspDecode, EzspEncode, Reader, Writer};
use rsezsp::types::network::{Decision, Eui64, NodeId};
use rsezsp::ProtocolVersion;

fn v13() -> ProtocolVersion {
    ProtocolVersion::new(0x0d)
}

#[test]
fn an_ieee_address_goes_out_little_endian() {
    let address = Eui64::new(0x94a0_81ff_fed9_6e5c);
    assert_eq!(
        address.to_wire(),
        [0x5c, 0x6e, 0xd9, 0xfe, 0xff, 0x81, 0xa0, 0x94]
    );
    assert_eq!(Eui64::from_wire(address.to_wire()), address);
    assert_eq!(address.to_string(), "0x94a081fffed96e5c");
}

#[test]
fn addresses_print_in_hex_in_both_forms() {
    let address = Eui64::new(0xa4c1_3814_2d62_ffff);
    assert_eq!(address.to_string(), "0xa4c138142d62ffff");
    assert_eq!(format!("{address:?}"), "0xa4c138142d62ffff");

    let node = NodeId(14913);
    assert_eq!(format!("{node:?}"), "0x3a41");
    assert_eq!(node.to_string(), "0x3a41");
}

#[test]
fn the_wildcard_address_is_all_ones() {
    assert_eq!(Eui64::new(Eui64::WILDCARD).to_wire(), [0xff; 8]);
}

#[test]
fn an_ieee_address_round_trips_through_the_codec() {
    let address = Eui64::new(0xa4c1_3814_2d62_ffff);
    let mut out = Writer::new(v13());
    address.encode(&mut out).expect("encodes");
    let bytes = out.into_vec();
    assert_eq!(bytes.len(), 8);
    let mut reader = Reader::new(&bytes, v13());
    assert_eq!(Eui64::decode(&mut reader).expect("decodes"), address);
}

#[test]
fn a_truncated_ieee_address_is_refused() {
    let mut reader = Reader::new(&[0x01, 0x02, 0x03], v13());
    assert!(Eui64::decode(&mut reader).is_err());
}

#[test]
fn trust_centre_bits_combine_to_the_value_a_working_stack_sends() {
    let decision = Decision(Decision::ALLOW_JOINS).union(Decision(Decision::ALLOW_UNSECURED_REJOINS));
    assert_eq!(decision.0, 3);
    assert_ne!(decision.0, 0, "zero would deny every join");
}
