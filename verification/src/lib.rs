//! The credential issuance protocol between a holder and an issuer: the two
//! state machines, the selection of the inbound message that a machine is
//! ready for, the check that a message belongs to the interaction's thread,
//! and the assembly of the messages that the machines send.
pub mod attachment;
pub mod backend;
pub mod bag;
pub mod encoding;
pub mod error;
pub mod holder;
pub mod ids;
pub mod issuer;
pub mod json;
pub mod messages;
pub mod text;
pub mod transport;
