//! Safe, verified core of a binding to the host's structured log journal.
//!
//! The native journal daemon is reached over a C interface; the calls
//! themselves live outside this crate. Here stand the parts that can be
//! checked: translation of native return codes into errors and iteration
//! decisions, decoding of the journal's length-prefixed, equals-delimited
//! field buffers, and the formatting of structured messages to be sent.

pub mod error;
pub mod fields;
pub mod journal;
pub mod send;
pub mod text;
