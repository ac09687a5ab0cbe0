//! Typed requests to an interactive execution kernel, and their encoding
//! into the four buffers of an authenticated wire frame.

pub mod json;
pub mod command;
pub mod laws;

pub use command::{Command, DetailLevel, EncodeError, HistoryAccessType, WireMessage};
