//! Protocol data types shared by commands and callbacks.
//!
//! Nothing here does I/O and nothing knows about ASH. These are the values EZSP
//! carries, with the encoding rules that apply to them.

pub mod aps;
pub mod network;
pub mod security;
pub mod status;
