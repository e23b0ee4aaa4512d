//! Client-side codec for a length-prefixed, opcode-tagged button-daemon protocol.
//!
//! The crate is free of I/O: it turns typed commands into frames, turns frame
//! payloads into typed events, and keeps the handler registry. Every function
//! carries a contract over byte sequences that Verus checks.

pub mod addr;
pub mod cmd;
pub mod commands;
pub mod enums;
pub mod error;
pub mod events;
pub mod frame;
pub mod receive;
pub mod registry;
pub mod text;
pub mod wire;

pub use addr::{BdAddr, Uuid};
pub use error::FlicError;
