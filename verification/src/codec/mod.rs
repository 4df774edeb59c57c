//! The wire format: framing, checksums and the two handshake payloads.

pub mod digest;
pub mod frame;
pub mod ints;
pub mod laws;
pub mod payload;
