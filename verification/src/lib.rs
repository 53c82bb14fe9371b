//! A hierarchical name registry combined with an NFT-style ownership ledger.
//!
//! Domains are registered as tokens, may declare a parent domain, carry an
//! optional expiration, and hold typed records. The crate exposes pure state
//! transitions: every entry point takes the contract state, the caller's
//! identity and the current time as explicit arguments, validates fully
//! before mutating, and either applies the operation or returns an error
//! with the state untouched. A companion codec builds and reads the
//! cross-contract invocation packets with their stable action codes.

pub mod error;
pub mod state;
pub mod msg;
pub mod actions;
pub mod rpc;
pub mod laws;
