//! Chat messages.
pub mod models;
