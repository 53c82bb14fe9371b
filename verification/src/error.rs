//! Error kinds reported by the state transitions.

use vstd::prelude::*;

verus! {

/// A failed operation's discriminated reason. Every transition checks all of
/// its preconditions before mutating anything, so an error always leaves the
/// state exactly as it was.
#[derive(Clone, Copy, Debug, PartialEq, Eq, Structural)]
pub enum ContractError {
    /// The domain key is already registered.
    DomainAlreadyMinted,
    /// The token id is already assigned to a domain.
    TokenAlreadyMinted,
    /// The domain already holds a record of this class.
    RecordAlreadyMinted,
    /// No domain is registered under the given key.
    DomainNotFound,
    /// The domain holds no record of the given class.
    RecordNotFound,
    /// No ownership entry exists for the given token id.
    TokenNotFound,
    /// The domain's expiration lies in the past.
    DomainExpired,
    /// The caller is not allowed to perform the operation.
    Unauthorized,
}

/// The failure of a batched mint: the index of the first entry that failed
/// validation and that entry's error. No entry of the batch is committed.
#[derive(Clone, Copy, Debug, PartialEq, Eq, Structural)]
pub struct BatchError {
    /// Position of the failing entry in the submitted batch.
    pub index: usize,
    /// Why that entry was rejected.
    pub error: ContractError,
}

} // verus!
