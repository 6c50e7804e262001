//! Client side of a local IPC protocol: endpoint discovery, length-framed
//! messages, the versioned handshake and the status-update command.

pub mod config;
pub mod config_hash;
pub mod connection_state;
pub mod error;
pub mod frame;
pub mod rich_presence;
pub mod stream_manager;
