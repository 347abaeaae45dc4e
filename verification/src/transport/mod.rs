//! Getting bytes to and from the NCP.
//!
//! The transport is deliberately the thinnest layer: read bytes, write bytes,
//! and nothing else. All framing lives in [`crate::ash`] and all protocol logic
//! above that, so a transport can be a serial port, a socket, a recorded
//! capture, or a test double, and none of them need to know anything about
//! ASH.

pub mod error;
pub mod fake;
pub mod serial;

pub use error::TransportError;
