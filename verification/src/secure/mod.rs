//! Secure sessions: their records, their bootstrap and message encryption.
pub mod bootstrap;
pub mod exchange;
pub mod session;
