//! A small WebSocket client library: a client holds one endpoint string and
//! drives a single connection lifecycle (connect, one spawned read task, one
//! greeting message, a graceful close, a join).
//!
//! Everything the lifecycle decides is verified here: endpoint validation,
//! the step-by-step transition table of the main flow, the read task's
//! handling of each inbound frame, and the exact console lines that are
//! reported. The surrounding async runtime work (the actual handshake,
//! sends, sleeps and the task join) is performed by a thin unverified
//! driver that feeds outcomes back into the verified machine.

pub mod client;
pub mod console;
pub mod endpoint;
pub mod error;
pub mod frames;
pub mod lifecycle;

pub use client::WebSocketClient;
pub use error::ClientError;
