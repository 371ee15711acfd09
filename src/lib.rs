//! A keyboard, mouse and audio link between two machines: a wire format for
//! input events and control signals, length-prefixed framing over a byte
//! stream, a bounded sample ring between an audio callback and the network,
//! and the decisions of the connection supervisor and its stream handlers.
pub mod codes;
pub mod wire;
pub mod framing;
pub mod ring;
pub mod audio;
pub mod link;
pub mod forwarder;
pub mod control;
pub mod emulator;
pub mod wake;
