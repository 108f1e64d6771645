//! A verified counter contract core: a single persisted record holding an
//! owner identity and an unsigned counter, together with the three entry
//! points a host ledger drives — initialize, execute, query.
//!
//! The host environment (message decoding, wire encoding, durable storage,
//! caller authentication) is an outside collaborator; this library holds the
//! state-transition and authorization logic, stated in contracts and proved.

pub mod contract;
pub mod errors;
pub mod laws;
pub mod msg;
pub mod state;
