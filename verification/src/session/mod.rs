//! The local presence session and the decisions that start, stop and refresh it.
pub mod heartbeat;
pub mod identity;
pub mod manager;
pub mod models;
