//! Messaging: message records, their encrypted payloads and delivery decisions.
pub mod delivery;
pub mod listener;
pub mod manager;
pub mod payload;
pub mod receipts;
pub mod sender;
