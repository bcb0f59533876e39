//! Signaling core for a peer-to-peer data channel: configuration layering,
//! the pending-candidate buffer, the signaling codec, the delivery retry
//! policy and the session coordinator, each with a machine-checked contract.

pub mod buffer;
pub mod codec;
pub mod config;
pub mod coordinator;
pub mod error;
pub mod json;
pub mod laws;
pub mod messages;
pub mod model;
pub mod session;
pub mod text;
pub mod transport;
