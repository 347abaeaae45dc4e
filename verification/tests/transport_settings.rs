//! How ports are opened, and what a failing one says.

use rsezsp::transport::serial::SerialSettings;
use rsezsp::transport::TransportError;

#[test]
fn flow_control_defaults_to_off() {
    let settings = SerialSettings::default();
    assert!(!settings.rtscts);
    assert_eq!(settings.baud, 115_200);
}

#[test]
fn transport_failures_say_what_failed() {
    let open = TransportError::Open {
        path: "/dev/ttyUSB0".into(),
        reason: "no such device".into(),
    };
    assert_eq!(open.to_string(), "cannot open /dev/ttyUSB0: no such device");
    let io = TransportError::Io {
        operation: "write",
        reason: "broken pipe".into(),
    };
    assert_eq!(io.to_string(), "write failed: broken pipe");
    assert_eq!(TransportError::Closed.to_string(), "the transport closed");
}
