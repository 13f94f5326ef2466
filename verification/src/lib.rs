//! A minimal point-to-point transport protocol for exchanging single
//! 64-bit values between two cooperating processes, with an optional
//! synchronous acknowledgement handshake.
//!
//! The protocol is a pure stream-framing convention over any bidirectional
//! ordered byte stream: one value travels as exactly 8 bytes (the value's
//! 64 bits, little-endian), and one acknowledgement travels as a single
//! marker byte. Both conventions are part of the interoperability contract:
//! two peers must use the same ones.
//!
//! The crate separates the protocol's decisions from the stream work. The
//! engine in [`protocol`] tells a driver what to read or write next and
//! folds each outcome into the result of one of the six operations; the
//! driver owns the socket or pipe and performs the blocking reads and
//! writes. [`endpoint`] guards the engine with the endpoint's
//! connected-or-closed state, [`codec`] holds the wire forms, and [`path`]
//! maps a local-transport name to its platform path.

pub mod codec;
pub mod endpoint;
pub mod errors;
pub mod path;
pub mod protocol;
