//! The wire protocol: packets, their payloads and message requests.
pub mod json;
pub mod packet;
pub mod requests;
