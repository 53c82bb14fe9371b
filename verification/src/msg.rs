//! The decoded messages the entry points take.
//!
//! Each mutating operation has one message struct; the entry point receives
//! it together with the call context and validates it against the state.

use vstd::prelude::*;
use crate::state::Address;
use crate::state::RecordClass;
use crate::state::opt_str_view;

verus! {

/// Establishes the initial contract state.
#[derive(Clone, Debug, PartialEq, Eq)]
pub struct PnsInitMsg {
    /// Optional contract owner, the only identity allowed to update metadata.
    pub owner: Option<Address>,
    /// Token name, stored as metadata.
    pub name: String,
    /// Token symbol, stored as metadata.
    pub symbol: String,
    /// Optional base uri, stored as metadata.
    pub base_uri: Option<String>,
    /// The identity given the minting authority.
    pub minter: Address,
}

/// Registers a new domain under a fresh token id.
#[derive(Clone, Debug, PartialEq, Eq)]
pub struct PnsMintMsg {
    /// The domain key to register.
    pub domain: String,
    /// The token handle to assign to it.
    pub token_id: u128,
    /// Optional key of an existing, non-expired parent domain.
    pub parent_id: Option<String>,
    /// Optional expiration stamp; `None` means the domain never expires.
    pub expires_at: Option<u64>,
}

/// Abstract value of a mint request.
#[verifier::ext_equal]
pub ghost struct MintV {
    pub domain: Seq<char>,
    pub token_id: u128,
    pub parent_id: Option<Seq<char>>,
    pub expires_at: Option<u64>,
}

impl View for PnsMintMsg {
    type V = MintV;

    open spec fn view(&self) -> MintV {
        MintV {
            domain: self.domain@,
            token_id: self.token_id,
            parent_id: opt_str_view(self.parent_id),
            expires_at: self.expires_at,
        }
    }
}

/// The views of a vector of mint requests, in order.
pub open spec fn mints_view(s: Seq<PnsMintMsg>) -> Seq<MintV> {
    Seq::new(s.len(), |i: int| s[i]@)
}

/// Registers several domains at once, all of them or none.
#[derive(Clone, Debug, PartialEq, Eq)]
pub struct PnsMultiMintMsg {
    /// The mint requests, applied in order.
    pub mints: Vec<PnsMintMsg>,
}

/// Attaches a record to a domain under a class it does not hold yet.
#[derive(Clone, Debug, PartialEq, Eq)]
pub struct PnsRecordMintMsg {
    /// The domain to attach the record to.
    pub domain: String,
    /// Class type.
    pub class: RecordClass,
    /// Payload bytes.
    pub data: Vec<u8>,
}

/// Overwrites the payload of an existing record.
#[derive(Clone, Debug, PartialEq, Eq)]
pub struct PnsRecordUpdateMsg {
    /// The domain holding the record.
    pub domain: String,
    /// Class type.
    pub class: RecordClass,
    /// The new payload bytes.
    pub data: Vec<u8>,
}

/// Removes one record from a domain.
#[derive(Clone, Debug, PartialEq, Eq)]
pub struct PnsRecordDeleteMsg {
    /// The domain holding the record.
    pub domain: String,
    /// Class type.
    pub class: RecordClass,
}

/// Clears every record of a domain, expired or not.
#[derive(Clone, Debug, PartialEq, Eq)]
pub struct PnsRecordDeleteAllMsg {
    /// The domain whose records are wiped.
    pub domain: String,
}

/// Overwrites a domain's expiration stamp, its renewal path.
#[derive(Clone, Debug, PartialEq, Eq)]
pub struct PnsDomainUpdateExpirationMsg {
    /// The domain to renew or lapse.
    pub domain: String,
    /// The new stamp; `None` means the domain never expires.
    pub expires_at: Option<u64>,
}

/// Moves a token to a new owner; only the owner may send it.
#[derive(Clone, Debug, PartialEq, Eq)]
pub struct PnsTransferMsg {
    /// The receiving identity.
    pub to: Address,
    /// The token to move.
    pub token_id: u128,
}

/// Moves a token on the owner's behalf: allowed for the owner, the token's
/// approved spender, or one of the owner's operators.
#[derive(Clone, Debug, PartialEq, Eq)]
pub struct PnsTransferFromMsg {
    /// The current owner the token is taken from.
    pub from: Address,
    /// The receiving identity.
    pub to: Address,
    /// The token to move.
    pub token_id: u128,
}

/// Sets or replaces a token's single approved spender.
#[derive(Clone, Debug, PartialEq, Eq)]
pub struct PnsApproveMsg {
    /// The spender being approved.
    pub spender: Address,
    /// The token the approval covers.
    pub token_id: u128,
}

/// Clears a token's single approved spender.
#[derive(Clone, Debug, PartialEq, Eq)]
pub struct PnsRevokeMsg {
    /// The spender being revoked.
    pub spender: Address,
    /// The token the approval covered.
    pub token_id: u128,
}

/// Grants an operator blanket delegation over all of the caller's tokens.
#[derive(Clone, Debug, PartialEq, Eq)]
pub struct PnsApproveForAllMsg {
    /// The operator being granted delegation.
    pub operator: Address,
}

/// Withdraws an operator's blanket delegation.
#[derive(Clone, Debug, PartialEq, Eq)]
pub struct PnsRevokeForAllMsg {
    /// The operator losing delegation.
    pub operator: Address,
}

/// Removes a token's ownership entry; only the owner may send it.
#[derive(Clone, Debug, PartialEq, Eq)]
pub struct PnsBurnMsg {
    /// The token to burn.
    pub token_id: u128,
}

/// Replaces the stored base uri; only the contract owner may send it.
#[derive(Clone, Debug, PartialEq, Eq)]
pub struct PnsSetBaseUriMsg {
    /// The new base uri.
    pub new_base_uri: String,
}

/// Rotates the minting authority; only the current minter may send it.
#[derive(Clone, Debug, PartialEq, Eq)]
pub struct PnsUpdateMinterMsg {
    /// The identity receiving the minting authority.
    pub new_minter: Address,
}

/// Asks the contract whether `owner` holds the token; a pure query other
/// contracts send before acting on a token.
#[derive(Clone, Debug, PartialEq, Eq)]
pub struct PnsCheckOwnerMsg {
    /// The identity claimed to own the token.
    pub owner: Address,
    /// The token the claim is about.
    pub token_id: u128,
}

} // verus!
