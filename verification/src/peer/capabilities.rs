//! What a client supports.
use vstd::prelude::*;

verus! {

/// The features and limits that a client announces to its peers.
#[derive(Debug)]
pub struct PeerCapabilities {
    pub supports_ice: bool,
    pub supports_turn: bool,
    pub supports_files: bool,
    pub supports_images: bool,
    pub max_file_size_mb: u32,
    pub client_version: String,
}

impl Clone for PeerCapabilities {
    fn clone(&self) -> (r: Self)
        ensures
            r == *self,
    {
        PeerCapabilities {
            supports_ice: self.supports_ice,
            supports_turn: self.supports_turn,
            supports_files: self.supports_files,
            supports_images: self.supports_images,
            max_file_size_mb: self.max_file_size_mb,
            client_version: self.client_version.clone(),
        }
    }
}

/// The capabilities of this client when none were saved: ICE, files and images
/// up to 50 MB, no TURN, version 0.5.0.
pub open spec fn is_default_capabilities(c: PeerCapabilities) -> bool {
    &&& c.supports_ice
    &&& !c.supports_turn
    &&& c.supports_files
    &&& c.supports_images
    &&& c.max_file_size_mb == 50
    &&& c.client_version@ == "0.5.0"@
}

impl Default for PeerCapabilities {
    fn default() -> (c: Self)
        ensures
            is_default_capabilities(c),
    {
        PeerCapabilities {
            supports_ice: true,
            supports_turn: false,
            supports_files: true,
            supports_images: true,
            max_file_size_mb: 50,
            client_version: String::from_str("0.5.0"),
        }
    }
}

} // verus!
