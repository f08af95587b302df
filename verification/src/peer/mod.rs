//! Peers: their capabilities and what discovery learns of them.
pub mod capabilities;
pub mod discovery;
