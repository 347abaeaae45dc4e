//! `rsezsp` is a host driver for Silicon Labs Ember NCP devices, the network
//! co-processors that speak EZSP over ASH.
//!
//! # Layering
//!
//! ```text
//! Application / Zigbee runtime
//!         │
//!    typed EZSP API          ezsp::command, ezsp::callback
//!         │
//! EZSP codec + correlation   ezsp::codec, ezsp::frame, ezsp::correlation
//!         │
//!    ASH transport           ash::
//!         │
//!        serial              transport::
//!         │
//!  Silicon Labs Ember NCP
//! ```
//!
//! Each layer is usable on its own and none reaches past its neighbours;
//! [`ncp`] ties them into one conversation. This crate owns the host-to-NCP
//! conversation and nothing above it: no ZCL, no ZDO interview logic, no device
//! definitions.
//!
//! # Two properties the design is built around
//!
//! **The protocol version is part of the wire format.** Field widths change
//! between EZSP versions -- a status is one byte below version 14 and four at
//! or above it -- so the negotiated version is threaded through every codec
//! rather than stored once. See [`ezsp::version`].
//!
//! **Everything is sans-I/O.** Bytes in, typed values out, no runtime involved.
//! That is what lets every function here carry a proved contract.

pub mod ash;
pub mod ezsp;
pub mod laws;
pub mod ncp;
pub mod text;
pub mod transport;
pub mod types;

pub use ash::AshError;
pub use ezsp::{Command, EzspError, FrameId, ProtocolVersion};
pub use ncp::Ncp;
pub use types::network::{Eui64, NodeId};
pub use types::status::SlStatus;
