//! Protocol versions and their boundaries.

use rsezsp::ProtocolVersion;

#[test]
fn the_boundary_is_at_fourteen_and_is_exclusive_below() {
    let thirteen = ProtocolVersion::new(0x0d);
    let fourteen = ProtocolVersion::new(0x0e);

    assert!(!thirteen.has_wide_status(), "v13 status is one byte");
    assert!(fourteen.has_wide_status(), "v14 status is four bytes");

    assert!(!thirteen.has_wide_message_tag());
    assert!(fourteen.has_wide_message_tag());

    assert!(
        thirteen.has_transient_key_flags(),
        "v13 carries the flags byte"
    );
    assert!(
        !fourteen.has_transient_key_flags(),
        "v14 dropped the flags byte"
    );
}

#[test]
fn support_is_bounded_at_both_ends() {
    assert!(ProtocolVersion::new(ProtocolVersion::MIN_SUPPORTED).is_supported());
    assert!(ProtocolVersion::new(ProtocolVersion::MAX_SUPPORTED).is_supported());
    assert!(!ProtocolVersion::new(0x0c).is_supported());
    assert!(!ProtocolVersion::new(0x14).is_supported());
}

#[test]
fn the_preferred_version_is_one_we_can_actually_speak() {
    assert!(ProtocolVersion::new(ProtocolVersion::PREFERRED).is_supported());
}
