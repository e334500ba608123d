//! The messages of the issuance protocol and the events that drive the two
//! state machines.
pub mod a2a;
pub mod issuance;
pub mod notice;
pub mod preview;
pub mod thread;
