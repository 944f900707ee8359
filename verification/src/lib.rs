//! A peer-signaling relay: a registry of connected peers, a router that
//! re-addresses each message to name its sender, and the per-connection
//! state machine that ties both to a transport.

pub mod document;
pub mod handler;
pub mod laws;
pub mod peer;
pub mod queue;
pub mod registry;
pub mod relay;
pub mod router;
pub mod store;
pub mod text;
