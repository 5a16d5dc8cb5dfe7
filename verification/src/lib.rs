//! Rules of a stream-adaptation layer between a host runtime's byte streams
//! and pull-based sequences of owned byte buffers, with the error taxonomy
//! that the layer reports through.
//!
//! The crate holds the decisions only. Whoever owns the host handles pulls
//! from them, hands what came back to the types of this crate, and acts on
//! the answer.

pub mod decimal;
pub mod error;
pub mod laws;
pub mod streams;

pub use error::Error;
pub use streams::{ByteStream, FixedLengthStream};
