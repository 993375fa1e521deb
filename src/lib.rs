//! Adaptation layer between callers and a native APRS packet-decoding engine.
//!
//! The engine itself is reached from outside this crate; what it reports for a
//! packet is handed here as plain values (a [`RawPacket`]), and this crate turns
//! that report into a [`Packet`] with typed, unit-tagged optional fields, or into
//! an [`Error`].
pub mod text;
pub mod packet;
pub mod decode;

pub use decode::{check_input, on_explanation, on_reply, Error, Next, Reply};
pub use packet::{Coordinates, Packet, RawPacket};
