//! Network-level types: candidates, endpoints, discovery, key agreement,
//! reliability and NAT information.
pub mod candidate;
pub mod discovery;
pub mod endpoints;
pub mod interfaces;
pub mod nat_info;
pub mod reliability;
pub mod session_keys;
