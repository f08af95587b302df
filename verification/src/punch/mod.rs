//! UDP hole punching: sessions, their states and the probing rounds.
pub mod coordinator;
pub mod manager;
pub mod probe;
pub mod session;
pub mod state;
