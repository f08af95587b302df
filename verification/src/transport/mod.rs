//! Transports: the interface, an in-memory one, the choice of one for a peer.
pub mod manager;
pub mod mock;
pub mod registry;
pub mod transport_trait;
