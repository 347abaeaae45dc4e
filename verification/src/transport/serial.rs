//! How a serial port is opened.
//!
//! # Flow control is not a preference
//!
//! Opening a tty with hardware flow control enabled **blocks in `open(2)`
//! until CTS is asserted**. On a dongle that does not wire RTS/CTS, that is a
//! hang, not a slow start -- and it cannot be interrupted by a timeout,
//! because a blocking syscall is not an await point.
//!
//! So [`SerialSettings::rtscts`] defaults to off, and turning it on is an
//! explicit decision for a dongle known to wire those lines. The safe default
//! costs nothing on hardware that does support it; the unsafe one costs the
//! process.
//!
//! Confirmed on a Sonoff ZBDongle-E (EFR32MG21): 115200 baud, no flow control.

use vstd::prelude::*;

verus! {

/// How to open the port.
#[derive(Debug, Clone, Copy, PartialEq, Eq, Structural)]
pub struct SerialSettings {
    /// Baud rate. Ember NCPs use 115200 unless reconfigured.
    pub baud: u32,
    /// Whether the dongle wires RTS/CTS.
    ///
    /// **Leave this off unless you know it does.** See the module docs: a
    /// wrong `true` is an uninterruptible hang.
    pub rtscts: bool,
}

impl Default for SerialSettings {
    fn default() -> (res: Self)
        ensures
            res == (SerialSettings { baud: 115_200, rtscts: false }),
    {
        SerialSettings { baud: 115_200, rtscts: false }
    }
}

} // verus!
