//! ICE: candidate pairs, their priorities, connectivity checks and the choice
//! of a working pair.
pub mod checks;
pub mod connectivity;
pub mod pair;
pub mod state;
