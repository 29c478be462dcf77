//! Ingestion of IoT telemetry: hex text lines carrying fixed 9-byte binary
//! frames are decoded into readings, which are relayed downstream as one
//! human-readable text record each.
//!
//! Everything here is pure decision and data logic; the sockets, the task
//! spawning and the logging live in the companion binary.

pub mod frame;
pub mod hex_line;
pub mod line;
pub mod record;
pub mod connection;
