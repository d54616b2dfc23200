//! Wire codec and connection handshake for a Bitcoin-style peer-to-peer
//! protocol: endian-aware integer parsing, a bounds-checked byte cursor,
//! the double-hash checksum, the network-address and version-payload
//! layouts, the message envelope, and the handshake state machine.

pub mod address;
pub mod btc_message;
pub mod checksum;
pub mod endian;
pub mod error;
pub mod handshake;
pub mod network;
pub mod utils;
pub mod version;
