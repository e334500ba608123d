//! The holder's side of the protocol.
pub mod holder;
pub mod laws;
pub mod queries;
pub mod state_machine;
pub mod states;
