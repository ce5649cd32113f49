//! The matchmaker: keeps track of open rooms and relays packets between peers.

pub mod connection;
pub mod laws;
pub mod peers;
pub mod rooms;
pub mod search;
pub mod server;
