//! Outbound half of a debug-adapter-style transport: frames typed protocol
//! messages into a length-prefixed byte stream and carries the exit signal
//! that coordinates a graceful shutdown with the accept loop.

pub mod client;
pub mod errors;
pub mod frame;

pub use client::{Event, Payload, Response, ReverseRequest, Sendable, StdoutWriter, WriterView};
pub use errors::ClientError;
pub use frame::{encode_frame, frame_of};
