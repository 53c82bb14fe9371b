//! General laws of the registry, stated over the transition specifications
//! and proved once for every state, message and time.

use vstd::prelude::*;
use crate::error::ContractError;
use crate::msg::MintV;
use crate::state::Address;
use crate::state::DomainV;
use crate::state::RecordClass;
use crate::state::StateV;
use crate::state::spec_expired;
use crate::actions::approve_spec;
use crate::actions::burn_spec;
use crate::actions::mint_apply;
use crate::actions::mint_spec;
use crate::actions::multi_mint_spec;
use crate::actions::record_delete_all_spec;
use crate::actions::record_delete_spec;
use crate::actions::record_mint_spec;
use crate::actions::record_update_spec;
use crate::actions::shift_err;
use crate::actions::transfer_apply;
use crate::actions::transfer_from_allowed;
use crate::actions::transfer_from_spec;
use crate::actions::transfer_spec;
use crate::actions::update_expiration_spec;
use crate::actions::with_domain;

verus! {

/// A successful mint registers the domain under exactly the requested
/// token id, and binds that token id back to the domain key.
pub proof fn lemma_mint_assigns_token(s: StateV, caller: Address, m: MintV, now: u64, s2: StateV)
    requires
        mint_spec(s, caller, m, now) == Ok::<StateV, ContractError>(s2),
    ensures
        s2.domains.contains_key(m.domain),
        s2.domains[m.domain].token_id == m.token_id,
        s2.tokens.contains_key(m.token_id),
        s2.tokens[m.token_id] == m.domain,
        s2.owners.contains_key(m.token_id),
        s2.owners[m.token_id] == caller,
{
}

/// After a successful mint, minting the same domain key again fails with
/// `DomainAlreadyMinted`, whatever else the second request says.
pub proof fn lemma_mint_same_domain_fails(
    s: StateV,
    caller: Address,
    m1: MintV,
    now: u64,
    s2: StateV,
    m2: MintV,
    now2: u64,
)
    requires
        mint_spec(s, caller, m1, now) == Ok::<StateV, ContractError>(s2),
        m2.domain == m1.domain,
        s2.minter == caller,
    ensures
        mint_spec(s2, caller, m2, now2) == Err::<StateV, ContractError>(
            ContractError::DomainAlreadyMinted,
        ),
{
}

/// After a successful mint, minting the same token id again under a fresh
/// domain key fails with `TokenAlreadyMinted`.
pub proof fn lemma_mint_same_token_fails(
    s: StateV,
    caller: Address,
    m1: MintV,
    now: u64,
    s2: StateV,
    m2: MintV,
    now2: u64,
)
    requires
        mint_spec(s, caller, m1, now) == Ok::<StateV, ContractError>(s2),
        m2.token_id == m1.token_id,
        !s2.domains.contains_key(m2.domain),
        s2.minter == caller,
    ensures
        mint_spec(s2, caller, m2, now2) == Err::<StateV, ContractError>(
            ContractError::TokenAlreadyMinted,
        ),
{
}

/// A mint naming a parent that is not registered fails with
/// `DomainNotFound`.
pub proof fn lemma_mint_parent_missing(s: StateV, caller: Address, m: MintV, now: u64, p: Seq<char>)
    requires
        caller == s.minter,
        !s.domains.contains_key(m.domain),
        !s.tokens.contains_key(m.token_id),
        m.parent_id == Some(p),
        !s.domains.contains_key(p),
    ensures
        mint_spec(s, caller, m, now) == Err::<StateV, ContractError>(ContractError::DomainNotFound),
{
}

/// A mint naming a parent whose expiration has passed fails with
/// `DomainExpired`.
pub proof fn lemma_mint_parent_expired(s: StateV, caller: Address, m: MintV, now: u64, p: Seq<char>)
    requires
        caller == s.minter,
        !s.domains.contains_key(m.domain),
        !s.tokens.contains_key(m.token_id),
        m.parent_id == Some(p),
        s.domains.contains_key(p),
        spec_expired(s.domains[p].expires_at, now),
    ensures
        mint_spec(s, caller, m, now) == Err::<StateV, ContractError>(ContractError::DomainExpired),
{
}

/// A mint under a live, registered parent succeeds, and afterwards the new
/// domain and the parent are both resolvable, the parent unchanged.
pub proof fn lemma_mint_with_live_parent(
    s: StateV,
    caller: Address,
    m: MintV,
    now: u64,
    p: Seq<char>,
)
    requires
        caller == s.minter,
        !s.domains.contains_key(m.domain),
        !s.tokens.contains_key(m.token_id),
        m.parent_id == Some(p),
        s.domains.contains_key(p),
        !spec_expired(s.domains[p].expires_at, now),
    ensures
        mint_spec(s, caller, m, now) == Ok::<StateV, ContractError>(mint_apply(s, caller, m)),
        mint_apply(s, caller, m).domains.contains_key(m.domain),
        mint_apply(s, caller, m).domains.contains_key(p),
        mint_apply(s, caller, m).domains[p] == s.domains[p],
{
}

/// On a domain whose expiration has passed, minting, overwriting and
/// deleting single records all fail with `DomainExpired`, while wiping the
/// whole record store still succeeds and leaves it empty. Renewal is never
/// required for the wipe.
pub proof fn lemma_expiration_gates_records(
    s: StateV,
    k: Seq<char>,
    class: RecordClass,
    data: Seq<u8>,
    now: u64,
)
    requires
        s.domains.contains_key(k),
        spec_expired(s.domains[k].expires_at, now),
    ensures
        record_mint_spec(s, k, class, data, now) == Err::<StateV, ContractError>(
            ContractError::DomainExpired,
        ),
        record_update_spec(s, k, class, data, now) == Err::<StateV, ContractError>(
            ContractError::DomainExpired,
        ),
        record_delete_spec(s, k, class, now) == Err::<StateV, ContractError>(
            ContractError::DomainExpired,
        ),
        record_delete_all_spec(s, k) == Ok::<StateV, ContractError>(
            with_domain(s, k, DomainV { records: Map::empty(), ..s.domains[k] }),
        ),
        with_domain(s, k, DomainV { records: Map::empty(), ..s.domains[k] }).domains[k].records
            == Map::<RecordClass, Seq<u8>>::empty(),
{
}

/// Overwriting a domain's expiration succeeds unconditionally for a
/// registered domain — even an expired one — and immediately un-gates its
/// record operations: with a live new stamp, a record mint of a class the
/// domain does not hold goes through.
pub proof fn lemma_update_expiration_ungates(
    s: StateV,
    k: Seq<char>,
    expires_at: Option<u64>,
    class: RecordClass,
    data: Seq<u8>,
    now: u64,
)
    requires
        s.domains.contains_key(k),
        !spec_expired(expires_at, now),
        !s.domains[k].records.contains_key(class),
    ensures
        update_expiration_spec(s, k, expires_at) == Ok::<StateV, ContractError>(
            with_domain(s, k, DomainV { expires_at, ..s.domains[k] }),
        ),
        record_mint_spec(
            with_domain(s, k, DomainV { expires_at, ..s.domains[k] }),
            k,
            class,
            data,
            now,
        ) == Ok::<StateV, ContractError>(
            with_domain(
                s,
                k,
                DomainV { expires_at, records: s.domains[k].records.insert(class, data), ..s.domains[k] },
            ),
        ),
{
    let s2 = with_domain(s, k, DomainV { expires_at, ..s.domains[k] });
    assert(with_domain(
        s2,
        k,
        DomainV { records: s2.domains[k].records.insert(class, data), ..s2.domains[k] },
    ) =~= with_domain(
        s,
        k,
        DomainV { expires_at, records: s.domains[k].records.insert(class, data), ..s.domains[k] },
    ));
}

/// Records of different classes are independent: after minting one class,
/// minting a different class the domain does not hold still succeeds.
pub proof fn lemma_record_classes_independent(
    s: StateV,
    k: Seq<char>,
    c1: RecordClass,
    d1: Seq<u8>,
    c2: RecordClass,
    d2: Seq<u8>,
    now: u64,
    s1: StateV,
)
    requires
        record_mint_spec(s, k, c1, d1, now) == Ok::<StateV, ContractError>(s1),
        c2 != c1,
        !s.domains[k].records.contains_key(c2),
    ensures
        record_mint_spec(s1, k, c2, d2, now) == Ok::<StateV, ContractError>(
            with_domain(
                s1,
                k,
                DomainV { records: s1.domains[k].records.insert(c2, d2), ..s1.domains[k] },
            ),
        ),
{
}

/// `(domain, class)` is unique: after minting a record, minting the same
/// class on the same domain again fails with `RecordAlreadyMinted`.
pub proof fn lemma_record_same_class_fails(
    s: StateV,
    k: Seq<char>,
    class: RecordClass,
    d1: Seq<u8>,
    d2: Seq<u8>,
    now: u64,
    s1: StateV,
)
    requires
        record_mint_spec(s, k, class, d1, now) == Ok::<StateV, ContractError>(s1),
    ensures
        record_mint_spec(s1, k, class, d2, now) == Err::<StateV, ContractError>(
            ContractError::RecordAlreadyMinted,
        ),
{
}

/// Only the owner of a token may transfer, approve or burn it: any other
/// caller fails with `Unauthorized`.
pub proof fn lemma_owner_only_operations(
    s: StateV,
    caller: Address,
    to: Address,
    spender: Address,
    token_id: u128,
)
    requires
        s.owners.contains_key(token_id),
        s.owners[token_id] != caller,
    ensures
        transfer_spec(s, caller, to, token_id) == Err::<StateV, ContractError>(
            ContractError::Unauthorized,
        ),
        approve_spec(s, caller, spender, token_id) == Err::<StateV, ContractError>(
            ContractError::Unauthorized,
        ),
        burn_spec(s, caller, token_id) == Err::<StateV, ContractError>(
            ContractError::Unauthorized,
        ),
{
}

/// A delegated transfer succeeds exactly for the owner, the token's sole
/// approved spender, or an operator the owner has delegated to; any other
/// caller fails with `Unauthorized`.
pub proof fn lemma_transfer_from_authorization(
    s: StateV,
    caller: Address,
    from: Address,
    to: Address,
    token_id: u128,
)
    requires
        s.owners.contains_key(token_id),
        s.owners[token_id] == from,
    ensures
        transfer_from_allowed(s, caller, from, token_id) ==> transfer_from_spec(
            s,
            caller,
            from,
            to,
            token_id,
        ) == Ok::<StateV, ContractError>(transfer_apply(s, to, token_id)),
        !transfer_from_allowed(s, caller, from, token_id) ==> transfer_from_spec(
            s,
            caller,
            from,
            to,
            token_id,
        ) == Err::<StateV, ContractError>(ContractError::Unauthorized),
{
}

/// Every successful transfer clears the token's single-spender approval.
pub proof fn lemma_transfer_clears_approval(s: StateV, to: Address, token_id: u128)
    ensures
        !transfer_apply(s, to, token_id).approvals.contains_key(token_id),
{
}

/// Every successful burn clears the token's ownership entry and its
/// single-spender approval.
pub proof fn lemma_burn_clears_approval(s: StateV, caller: Address, token_id: u128, s2: StateV)
    requires
        burn_spec(s, caller, token_id) == Ok::<StateV, ContractError>(s2),
    ensures
        !s2.owners.contains_key(token_id),
        !s2.approvals.contains_key(token_id),
{
}

/// A batch holding a request whose domain key is already registered never
/// succeeds: either an earlier request fails, or that request fails — in
/// both cases the whole batch is rejected and nothing is committed.
pub proof fn lemma_multi_mint_duplicate_rejected(
    s: StateV,
    caller: Address,
    mints: Seq<MintV>,
    now: u64,
    j: int,
)
    requires
        0 <= j < mints.len(),
        s.domains.contains_key(mints[j].domain),
    ensures
        multi_mint_spec(s, caller, mints, now) is Err,
    decreases mints.len(),
{
    if mints.len() > 0 {
        match mint_spec(s, caller, mints[0], now) {
            Err(e) => {},
            Ok(s1) => {
                assert(j > 0);
                assert(s1.domains.contains_key(mints[j].domain));
                assert(mints.drop_first()[j - 1] == mints[j]);
                lemma_multi_mint_duplicate_rejected(s1, caller, mints.drop_first(), now, j - 1);
            },
        }
    }
}

} // verus!
