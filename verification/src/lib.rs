//! A sans-I/O core for a WebSocket client that lives on an event loop.
//!
//! The platform delivers `open`, `error` and `message` events through
//! callbacks; a cooperative task wants one awaitable connection outcome and a
//! pull-based stream of messages. This crate holds the decisions that sit
//! between the two: who owns the native handle and when it is closed, how the
//! race between the two handshake signals is settled, and how a pushed message
//! reaches a consumer that may be asleep. The driver around it performs the
//! platform calls and reports what happened.

pub mod error;
pub mod handshake;
pub mod safe_ws;
pub mod signal;
pub mod ws_stream;

pub use error::Error;
