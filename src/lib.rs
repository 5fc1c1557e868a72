//! Core of a minimal in-sandbox agent: the line-delimited RPC codec, the
//! process-slot rules, artifact filtering and encoding, and the dispatcher
//! that decides, for each inbound request and each process event, what is
//! answered, launched, written and forwarded.
//!
//! Everything that touches the operating system (spawning children, reading
//! their streams, watching the filesystem, the transport itself) lives in the
//! binary around this library; it hands plain values in and performs the
//! actions that come back.

pub mod protocol;
pub mod codec;
pub mod process;
pub mod artifacts;
pub mod dispatch;
