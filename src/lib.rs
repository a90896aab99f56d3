//! Coordination between a content-addressed block store and a peer-to-peer
//! swarm: store intents become swarm actions, swarm events become store
//! mutations or further actions, with local intents always serviced first.

pub mod handlers;
pub mod laws;
pub mod listing;
pub mod network;
pub mod replay;
pub mod store;
pub mod types;

pub use network::{Network, NetworkConfig};
