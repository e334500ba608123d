//! The issuer's side of the protocol.
pub mod laws;
pub mod preview;
pub mod state_machine;
pub mod states;
pub mod utils;
