//! What the library is for, stated in numbers and bytes.
//!
//! The functions of the library say what they do over the models of their own
//! modules. The laws here say what those models come to: which byte stands
//! where, which number follows which, what a frame changes and what it leaves
//! alone. They are stated over inputs and results, for all of them.

pub mod bytes;
pub mod callbacks;
pub mod calls;
pub mod commands;
pub mod conversation;
pub mod driving;
pub mod framing;
pub mod headers;
pub mod link;
pub mod texts;
pub mod values;
