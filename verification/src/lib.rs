//! Routing core of a network-distributed input multiplexer: the event model,
//! the raw-event conversion, the stream framing, the fingerprint checks and
//! the switch controller, each with a machine-checked contract.

pub mod button;
pub mod codec;
pub mod config;
pub mod device;
pub mod event;
pub mod fingerprint;
pub mod identity;
pub mod key;
pub mod manager;
pub mod raw;
pub mod reader;
pub mod server;
pub mod session;
pub mod switch;
pub mod writer;
