//! Connection handshakes: offers, answers and the choice of a candidate pair.
pub mod answer;
pub mod manager;
pub mod negotiation;
pub mod offer;
pub mod selector;
