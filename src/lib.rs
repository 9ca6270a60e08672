//! A client for a node's event-streaming RPC endpoint, built around a
//! connection lifecycle whose legal operations depend on its state.

pub mod client;
pub mod config;
pub mod lifecycle;
pub mod transport;

pub use client::{Client, InitClient, RunningClient};
pub use config::NodeConfig;
pub use lifecycle::{ClientError, ClientState};
