//! Peer-to-peer messaging: candidate selection, handshakes, hole punching,
//! secure sessions and the message bookkeeping around them.
pub mod chat;
pub mod error;
pub mod handshake;
pub mod ice;
pub mod messaging;
pub mod network;
pub mod peer;
pub mod protocol;
pub mod punch;
pub mod secure;
pub mod session;
pub mod stamp;
pub mod text;
pub mod transport;
