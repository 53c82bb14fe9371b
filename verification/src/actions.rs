//! The entry points: pure state transitions over [`PnsState`].
//!
//! Each operation has a specification function over [`StateV`] giving its
//! exact outcome — the error it reports or the state it produces — and an
//! executable entry point proved to match it. Validation always completes
//! before any mutation, so a failed operation leaves the state untouched.

use vstd::prelude::*;
use crate::error::BatchError;
use crate::error::ContractError;
use crate::msg::MintV;
use crate::msg::mints_view;
use crate::msg::PnsDomainUpdateExpirationMsg;
use crate::msg::PnsInitMsg;
use crate::msg::PnsMintMsg;
use crate::msg::PnsMultiMintMsg;
use crate::msg::PnsRecordDeleteAllMsg;
use crate::msg::PnsRecordDeleteMsg;
use crate::msg::PnsRecordMintMsg;
use crate::msg::PnsRecordUpdateMsg;
use crate::msg::PnsTransferMsg;
use crate::msg::PnsTransferFromMsg;
use crate::msg::PnsApproveMsg;
use crate::msg::PnsApproveForAllMsg;
use crate::msg::PnsRevokeMsg;
use crate::msg::PnsRevokeForAllMsg;
use crate::msg::PnsBurnMsg;
use crate::msg::PnsSetBaseUriMsg;
use crate::msg::PnsUpdateMinterMsg;
use crate::state::Address;
use crate::state::CallCtx;
use crate::state::Domain;
use crate::state::DomainV;
use crate::state::PnsState;
use crate::state::StateV;
use crate::state::Record;
use crate::state::RecordClass;
use crate::state::RecordEntry;
use crate::state::clone_bytes;
use crate::state::clone_opt_string;
use crate::state::clone_records;
use crate::state::find_record_index;
use crate::state::lemma_rec_map_congruence;
use crate::state::lemma_rec_map_contains;
use crate::state::lemma_rec_map_push;
use crate::state::lemma_rec_map_remove;
use crate::state::lemma_rec_map_update;
use crate::state::opt_str_view;
use crate::state::rec_distinct;
use crate::state::rec_seq_map;
use crate::state::pair_set;
use crate::state::lemma_pair_set_contains;
use crate::state::lemma_pair_set_push;
use crate::state::lemma_pair_set_remove;
use crate::state::spec_expired;
use vstd::pervasive::VecAdditionalExecFns;
use vstd::hash_map::HashMapWithView;
use vstd::hash_map::StringHashMap;

verus! {

broadcast use vstd::std_specs::hash::group_hash_axioms, vstd::hash_map::group_hash_map_axioms;

/// Mapping the values of a map commutes with inserting one binding.
pub proof fn lemma_map_values_insert<K, V, W>(m: Map<K, V>, k: K, v: V, f: spec_fn(V) -> W)
    ensures
        m.insert(k, v).map_values(f) == m.map_values(f).insert(k, f(v)),
{
    assert(m.insert(k, v).map_values(f) =~= m.map_values(f).insert(k, f(v)));
}

/// The registry after a successful mint: the domain is added under its key,
/// the token id is bound to the key, and the caller becomes the owner.
pub open spec fn mint_apply(s: StateV, caller: Address, m: MintV) -> StateV {
    StateV {
        domains: s.domains.insert(
            m.domain,
            DomainV {
                token_id: m.token_id,
                parent_id: m.parent_id,
                expires_at: m.expires_at,
                records: Map::empty(),
            },
        ),
        tokens: s.tokens.insert(m.token_id, m.domain),
        owners: s.owners.insert(m.token_id, caller),
        ..s
    }
}

/// The outcome of a mint: only the minter may mint, the domain key and the
/// token id must both be fresh, and a declared parent must exist and not be
/// expired at time `now`.
pub open spec fn mint_spec(s: StateV, caller: Address, m: MintV, now: u64) -> Result<
    StateV,
    ContractError,
> {
    if caller != s.minter {
        Err(ContractError::Unauthorized)
    } else if s.domains.contains_key(m.domain) {
        Err(ContractError::DomainAlreadyMinted)
    } else if s.tokens.contains_key(m.token_id) {
        Err(ContractError::TokenAlreadyMinted)
    } else {
        match m.parent_id {
            Some(p) => if !s.domains.contains_key(p) {
                Err(ContractError::DomainNotFound)
            } else if spec_expired(s.domains[p].expires_at, now) {
                Err(ContractError::DomainExpired)
            } else {
                Ok(mint_apply(s, caller, m))
            },
            None => Ok(mint_apply(s, caller, m)),
        }
    }
}

/// Creates the initial state: the configured identities and metadata, and
/// empty domain, token, ownership and approval tables.
pub fn execute_init(msg: &PnsInitMsg) -> (s: PnsState)
    ensures
        s.wf(),
        s@.owner == msg.owner,
        s@.minter == msg.minter,
        s@.name == msg.name@,
        s@.symbol == msg.symbol@,
        s@.base_uri == opt_str_view(msg.base_uri),
        s@.domains == Map::<Seq<char>, DomainV>::empty(),
        s@.tokens == Map::<u128, Seq<char>>::empty(),
        s@.owners == Map::<u128, Address>::empty(),
        s@.approvals == Map::<u128, Address>::empty(),
        s@.operators == Set::<(Address, Address)>::empty(),
{
    let s = PnsState {
        owner: msg.owner,
        minter: msg.minter,
        name: msg.name.clone(),
        symbol: msg.symbol.clone(),
        base_uri: clone_opt_string(&msg.base_uri),
        domains: StringHashMap::new(),
        token_index: HashMapWithView::new(),
        owners: HashMapWithView::new(),
        approvals: HashMapWithView::new(),
        operators: Vec::new(),
    };
    proof {
        assert(s@.domains =~= Map::<Seq<char>, DomainV>::empty());
        assert(s@.tokens =~= Map::<u128, Seq<char>>::empty());
    }
    s
}

/// Registers a new domain. See [`mint_spec`] for the exact outcome.
pub fn execute_mint(ctx: &CallCtx, state: &mut PnsState, msg: &PnsMintMsg) -> (r: Result<
    (),
    ContractError,
>)
    requires
        old(state).wf(),
    ensures
        final(state).wf(),
        match mint_spec(old(state)@, ctx.sender, msg@, ctx.block_time) {
            Ok(sv) => r == Ok::<(), ContractError>(()) && final(state)@ == sv,
            Err(e) => r == Err::<(), ContractError>(e) && final(state)@ == old(state)@,
        },
{
    if ctx.sender != state.minter {
        return Err(ContractError::Unauthorized);
    }
    if state.domains.contains_key(msg.domain.as_str()) {
        return Err(ContractError::DomainAlreadyMinted);
    }
    if state.token_index.contains_key(&msg.token_id) {
        return Err(ContractError::TokenAlreadyMinted);
    }
    match &msg.parent_id {
        Some(p) => {
            match state.domains.get(p.as_str()) {
                None => {
                    return Err(ContractError::DomainNotFound);
                },
                Some(parent) => {
                    if parent.is_expired(ctx.block_time) {
                        return Err(ContractError::DomainExpired);
                    }
                },
            }
        },
        None => {},
    }
    let domain = Domain {
        token_id: msg.token_id,
        parent_id: clone_opt_string(&msg.parent_id),
        expires_at: msg.expires_at,
        records: Vec::new(),
    };
    let ghost dg = domain;
    state.domains.insert(msg.domain.clone(), domain);
    let index_key = msg.domain.clone();
    let ghost ikg = index_key;
    state.token_index.insert(msg.token_id, index_key);
    state.owners.insert(msg.token_id, ctx.sender);
    proof {
        let os = old(state)@;
        let dk = msg.domain@;
        let t = msg.token_id;
        lemma_map_values_insert::<Seq<char>, Domain, DomainV>(
            old(state).domains@,
            dk,
            dg,
            |d: Domain| d@,
        );
        lemma_map_values_insert::<u128, String, Seq<char>>(
            old(state).token_index@,
            t,
            ikg,
            |s: String| s@,
        );
        assert(dg@.records =~= Map::<crate::state::RecordClass, Seq<u8>>::empty());
        assert(state@.domains =~= os.domains.insert(dk, dg@));
        assert(state@.tokens =~= os.tokens.insert(t, dk));
        assert(dg@ =~= mint_apply(os, ctx.sender, msg@).domains[dk]);
        assert(state@ =~= mint_apply(os, ctx.sender, msg@));
        assert(state.wf());
    }
    Ok(())
}

/// The state with one domain entry replaced.
pub open spec fn with_domain(s: StateV, k: Seq<char>, d: DomainV) -> StateV {
    StateV { domains: s.domains.insert(k, d), ..s }
}

/// The outcome of attaching a record: the domain must exist and not be
/// expired at `now`, and must not hold the class yet.
pub open spec fn record_mint_spec(
    s: StateV,
    k: Seq<char>,
    class: RecordClass,
    data: Seq<u8>,
    now: u64,
) -> Result<StateV, ContractError> {
    if !s.domains.contains_key(k) {
        Err(ContractError::DomainNotFound)
    } else if s.domains[k].expired(now) {
        Err(ContractError::DomainExpired)
    } else if s.domains[k].records.contains_key(class) {
        Err(ContractError::RecordAlreadyMinted)
    } else {
        Ok(
            with_domain(
                s,
                k,
                DomainV { records: s.domains[k].records.insert(class, data), ..s.domains[k] },
            ),
        )
    }
}

/// The outcome of overwriting a record: the domain must exist and not be
/// expired at `now`, and must already hold the class.
pub open spec fn record_update_spec(
    s: StateV,
    k: Seq<char>,
    class: RecordClass,
    data: Seq<u8>,
    now: u64,
) -> Result<StateV, ContractError> {
    if !s.domains.contains_key(k) {
        Err(ContractError::DomainNotFound)
    } else if s.domains[k].expired(now) {
        Err(ContractError::DomainExpired)
    } else if !s.domains[k].records.contains_key(class) {
        Err(ContractError::RecordNotFound)
    } else {
        Ok(
            with_domain(
                s,
                k,
                DomainV { records: s.domains[k].records.insert(class, data), ..s.domains[k] },
            ),
        )
    }
}

/// The outcome of deleting one record: the domain must exist and not be
/// expired at `now`, and must hold the class.
pub open spec fn record_delete_spec(s: StateV, k: Seq<char>, class: RecordClass, now: u64) -> Result<
    StateV,
    ContractError,
> {
    if !s.domains.contains_key(k) {
        Err(ContractError::DomainNotFound)
    } else if s.domains[k].expired(now) {
        Err(ContractError::DomainExpired)
    } else if !s.domains[k].records.contains_key(class) {
        Err(ContractError::RecordNotFound)
    } else {
        Ok(
            with_domain(
                s,
                k,
                DomainV { records: s.domains[k].records.remove(class), ..s.domains[k] },
            ),
        )
    }
}

/// The outcome of wiping a domain's records. Deliberately not gated on
/// expiration: it is the way to clear stale records of a lapsed domain
/// without renewing it first. Only the domain must exist.
pub open spec fn record_delete_all_spec(s: StateV, k: Seq<char>) -> Result<StateV, ContractError> {
    if !s.domains.contains_key(k) {
        Err(ContractError::DomainNotFound)
    } else {
        Ok(
            with_domain(
                s,
                k,
                DomainV { records: Map::empty(), ..s.domains[k] },
            ),
        )
    }
}

/// The outcome of overwriting a domain's expiration: unconditional for an
/// existing domain — this is the renewal path, so an expired domain can be
/// revived.
pub open spec fn update_expiration_spec(s: StateV, k: Seq<char>, expires_at: Option<u64>) -> Result<
    StateV,
    ContractError,
> {
    if !s.domains.contains_key(k) {
        Err(ContractError::DomainNotFound)
    } else {
        Ok(with_domain(s, k, DomainV { expires_at, ..s.domains[k] }))
    }
}

/// Replaces the domain under `key` — already known to be registered — with
/// a rebuilt entry carrying the same token id, and proves the state view
/// changes by exactly that one binding.
fn put_domain(state: &mut PnsState, key: &String, new_domain: Domain)
    requires
        old(state).wf(),
        old(state).domains@.contains_key(key@),
        new_domain@.token_id == old(state).domains@[key@]@.token_id,
        rec_distinct(new_domain.records@),
    ensures
        final(state).wf(),
        final(state)@ == with_domain(old(state)@, key@, new_domain@),
{
    let ghost dg = new_domain;
    state.domains.insert(key.clone(), new_domain);
    proof {
        lemma_map_values_insert::<Seq<char>, Domain, DomainV>(
            old(state).domains@,
            key@,
            dg,
            |d: Domain| d@,
        );
        assert(state@.domains =~= old(state)@.domains.insert(key@, dg@));
        assert(state@ =~= with_domain(old(state)@, key@, dg@));
        assert(state.wf());
    }
}

/// Attaches a record. See [`record_mint_spec`] for the exact outcome.
pub fn execute_record_mint(ctx: &CallCtx, state: &mut PnsState, msg: &PnsRecordMintMsg) -> (r:
    Result<(), ContractError>)
    requires
        old(state).wf(),
    ensures
        final(state).wf(),
        match record_mint_spec(old(state)@, msg.domain@, msg.class, msg.data@, ctx.block_time) {
            Ok(sv) => r == Ok::<(), ContractError>(()) && final(state)@ == sv,
            Err(e) => r == Err::<(), ContractError>(e) && final(state)@ == old(state)@,
        },
{
    proof {
        assert(old(state)@.domains.contains_key(msg.domain@) ==> old(state).domains@[msg.domain@].wf());
    }
    let d = match state.domains.get(msg.domain.as_str()) {
        None => {
            return Err(ContractError::DomainNotFound);
        },
        Some(d) => d,
    };
    if d.is_expired(ctx.block_time) {
        return Err(ContractError::DomainExpired);
    }
    proof {
        lemma_rec_map_contains(d.records@, msg.class);
    }
    if find_record_index(&d.records, msg.class).is_some() {
        return Err(ContractError::RecordAlreadyMinted);
    }
    let ghost orig = d.records@;
    let mut new_records = clone_records(&d.records);
    let ghost copied = new_records@;
    new_records.push(RecordEntry { class: msg.class, record: Record { data: clone_bytes(&msg.data) } });
    proof {
        lemma_rec_map_congruence(orig, copied);
        lemma_rec_map_push(copied, new_records@.last());
        assert(new_records@ =~= copied.push(new_records@.last()));
        assert(rec_distinct(new_records@));
        assert(rec_seq_map(new_records@) == rec_seq_map(orig).insert(msg.class, msg.data@));
    }
    let new_domain = Domain {
        token_id: d.token_id,
        parent_id: clone_opt_string(&d.parent_id),
        expires_at: d.expires_at,
        records: new_records,
    };
    proof {
        assert(new_domain@ =~= DomainV {
            records: old(state)@.domains[msg.domain@].records.insert(msg.class, msg.data@),
            ..old(state)@.domains[msg.domain@]
        });
    }
    put_domain(state, &msg.domain, new_domain);
    Ok(())
}

/// Overwrites a record. See [`record_update_spec`] for the exact outcome.
pub fn execute_record_update(ctx: &CallCtx, state: &mut PnsState, msg: &PnsRecordUpdateMsg) -> (r:
    Result<(), ContractError>)
    requires
        old(state).wf(),
    ensures
        final(state).wf(),
        match record_update_spec(old(state)@, msg.domain@, msg.class, msg.data@, ctx.block_time) {
            Ok(sv) => r == Ok::<(), ContractError>(()) && final(state)@ == sv,
            Err(e) => r == Err::<(), ContractError>(e) && final(state)@ == old(state)@,
        },
{
    proof {
        assert(old(state)@.domains.contains_key(msg.domain@) ==> old(state).domains@[msg.domain@].wf());
    }
    let d = match state.domains.get(msg.domain.as_str()) {
        None => {
            return Err(ContractError::DomainNotFound);
        },
        Some(d) => d,
    };
    if d.is_expired(ctx.block_time) {
        return Err(ContractError::DomainExpired);
    }
    proof {
        lemma_rec_map_contains(d.records@, msg.class);
    }
    let i = match find_record_index(&d.records, msg.class) {
        None => {
            return Err(ContractError::RecordNotFound);
        },
        Some(i) => i,
    };
    let ghost orig = d.records@;
    let mut new_records = clone_records(&d.records);
    let ghost copied = new_records@;
    new_records.set(i, RecordEntry { class: msg.class, record: Record { data: clone_bytes(&msg.data) } });
    proof {
        lemma_rec_map_congruence(orig, copied);
        lemma_rec_map_update(copied, i as int, new_records@[i as int]);
        assert(new_records@ =~= copied.update(i as int, new_records@[i as int]));
        assert(rec_distinct(new_records@));
        assert(rec_seq_map(new_records@) == rec_seq_map(orig).insert(msg.class, msg.data@));
    }
    let new_domain = Domain {
        token_id: d.token_id,
        parent_id: clone_opt_string(&d.parent_id),
        expires_at: d.expires_at,
        records: new_records,
    };
    proof {
        assert(new_domain@ =~= DomainV {
            records: old(state)@.domains[msg.domain@].records.insert(msg.class, msg.data@),
            ..old(state)@.domains[msg.domain@]
        });
    }
    put_domain(state, &msg.domain, new_domain);
    Ok(())
}

/// Deletes one record. See [`record_delete_spec`] for the exact outcome.
pub fn execute_record_delete(ctx: &CallCtx, state: &mut PnsState, msg: &PnsRecordDeleteMsg) -> (r:
    Result<(), ContractError>)
    requires
        old(state).wf(),
    ensures
        final(state).wf(),
        match record_delete_spec(old(state)@, msg.domain@, msg.class, ctx.block_time) {
            Ok(sv) => r == Ok::<(), ContractError>(()) && final(state)@ == sv,
            Err(e) => r == Err::<(), ContractError>(e) && final(state)@ == old(state)@,
        },
{
    proof {
        assert(old(state)@.domains.contains_key(msg.domain@) ==> old(state).domains@[msg.domain@].wf());
    }
    let d = match state.domains.get(msg.domain.as_str()) {
        None => {
            return Err(ContractError::DomainNotFound);
        },
        Some(d) => d,
    };
    if d.is_expired(ctx.block_time) {
        return Err(ContractError::DomainExpired);
    }
    proof {
        lemma_rec_map_contains(d.records@, msg.class);
    }
    let i = match find_record_index(&d.records, msg.class) {
        None => {
            return Err(ContractError::RecordNotFound);
        },
        Some(i) => i,
    };
    let ghost orig = d.records@;
    let mut new_records = clone_records(&d.records);
    let ghost copied = new_records@;
    new_records.remove(i);
    proof {
        lemma_rec_map_congruence(orig, copied);
        lemma_rec_map_remove(copied, i as int);
        assert(new_records@ =~= copied.remove(i as int));
        assert(rec_distinct(new_records@)) by {
            assert(rec_distinct(copied));
            assert(forall|j: int| 0 <= j < i ==> copied.remove(i as int)[j] == copied[j]);
            assert(forall|j: int|
                i <= j < copied.len() - 1 ==> copied.remove(i as int)[j] == copied[j + 1]);
        }
        assert(rec_seq_map(new_records@) == rec_seq_map(orig).remove(msg.class));
    }
    let new_domain = Domain {
        token_id: d.token_id,
        parent_id: clone_opt_string(&d.parent_id),
        expires_at: d.expires_at,
        records: new_records,
    };
    proof {
        assert(new_domain@ =~= DomainV {
            records: old(state)@.domains[msg.domain@].records.remove(msg.class),
            ..old(state)@.domains[msg.domain@]
        });
    }
    put_domain(state, &msg.domain, new_domain);
    Ok(())
}

/// Wipes every record of a domain, expired or not. See
/// [`record_delete_all_spec`] for the exact outcome.
pub fn execute_record_delete_all(
    _ctx: &CallCtx,
    state: &mut PnsState,
    msg: &PnsRecordDeleteAllMsg,
) -> (r: Result<(), ContractError>)
    requires
        old(state).wf(),
    ensures
        final(state).wf(),
        match record_delete_all_spec(old(state)@, msg.domain@) {
            Ok(sv) => r == Ok::<(), ContractError>(()) && final(state)@ == sv,
            Err(e) => r == Err::<(), ContractError>(e) && final(state)@ == old(state)@,
        },
{
    let d = match state.domains.get(msg.domain.as_str()) {
        None => {
            return Err(ContractError::DomainNotFound);
        },
        Some(d) => d,
    };
    let new_domain = Domain {
        token_id: d.token_id,
        parent_id: clone_opt_string(&d.parent_id),
        expires_at: d.expires_at,
        records: Vec::new(),
    };
    proof {
        assert(new_domain@.records =~= Map::<RecordClass, Seq<u8>>::empty());
        assert(new_domain@ =~= DomainV {
            records: Map::empty(),
            ..old(state)@.domains[msg.domain@]
        });
    }
    put_domain(state, &msg.domain, new_domain);
    Ok(())
}

/// Overwrites a domain's expiration stamp. See [`update_expiration_spec`]
/// for the exact outcome.
pub fn execute_update_expiration(
    _ctx: &CallCtx,
    state: &mut PnsState,
    msg: &PnsDomainUpdateExpirationMsg,
) -> (r: Result<(), ContractError>)
    requires
        old(state).wf(),
    ensures
        final(state).wf(),
        match update_expiration_spec(old(state)@, msg.domain@, msg.expires_at) {
            Ok(sv) => r == Ok::<(), ContractError>(()) && final(state)@ == sv,
            Err(e) => r == Err::<(), ContractError>(e) && final(state)@ == old(state)@,
        },
{
    proof {
        assert(old(state)@.domains.contains_key(msg.domain@) ==> old(state).domains@[msg.domain@].wf());
    }
    let d = match state.domains.get(msg.domain.as_str()) {
        None => {
            return Err(ContractError::DomainNotFound);
        },
        Some(d) => d,
    };
    let ghost orig = d.records@;
    let new_records = clone_records(&d.records);
    proof {
        lemma_rec_map_congruence(orig, new_records@);
    }
    let new_domain = Domain {
        token_id: d.token_id,
        parent_id: clone_opt_string(&d.parent_id),
        expires_at: msg.expires_at,
        records: new_records,
    };
    proof {
        assert(new_domain@ =~= DomainV {
            expires_at: msg.expires_at,
            ..old(state)@.domains[msg.domain@]
        });
    }
    put_domain(state, &msg.domain, new_domain);
    Ok(())
}

/// The ledger after a successful transfer: the token moves to `to` and its
/// single-spender approval is cleared.
pub open spec fn transfer_apply(s: StateV, to: Address, token_id: u128) -> StateV {
    StateV { owners: s.owners.insert(token_id, to), approvals: s.approvals.remove(token_id), ..s }
}

/// The outcome of a transfer: the token must be owned, and only its owner
/// may move it.
pub open spec fn transfer_spec(s: StateV, caller: Address, to: Address, token_id: u128) -> Result<
    StateV,
    ContractError,
> {
    if !s.owners.contains_key(token_id) {
        Err(ContractError::TokenNotFound)
    } else if s.owners[token_id] != caller {
        Err(ContractError::Unauthorized)
    } else {
        Ok(transfer_apply(s, to, token_id))
    }
}

/// Whether `caller` may move the token on behalf of its owner `from`: the
/// owner may, the token's approved spender may, and so may any operator
/// `from` has delegated to.
pub open spec fn transfer_from_allowed(s: StateV, caller: Address, from: Address, token_id: u128) -> bool {
    ||| caller == from
    ||| (s.approvals.contains_key(token_id) && s.approvals[token_id] == caller)
    ||| s.operators.contains((from, caller))
}

/// The outcome of a delegated transfer: the token must be owned, `from`
/// must be its owner, and the caller must be the owner, the approved
/// spender or one of the owner's operators.
pub open spec fn transfer_from_spec(
    s: StateV,
    caller: Address,
    from: Address,
    to: Address,
    token_id: u128,
) -> Result<StateV, ContractError> {
    if !s.owners.contains_key(token_id) {
        Err(ContractError::TokenNotFound)
    } else if s.owners[token_id] != from {
        Err(ContractError::Unauthorized)
    } else if !transfer_from_allowed(s, caller, from, token_id) {
        Err(ContractError::Unauthorized)
    } else {
        Ok(transfer_apply(s, to, token_id))
    }
}

/// The outcome of an approval: the token must be owned and only its owner
/// may set or replace the approved spender.
pub open spec fn approve_spec(s: StateV, caller: Address, spender: Address, token_id: u128) -> Result<
    StateV,
    ContractError,
> {
    if !s.owners.contains_key(token_id) {
        Err(ContractError::TokenNotFound)
    } else if s.owners[token_id] != caller {
        Err(ContractError::Unauthorized)
    } else {
        Ok(StateV { approvals: s.approvals.insert(token_id, spender), ..s })
    }
}

/// The outcome of a revocation: the token must be owned and only its owner
/// may clear the approval. Clearing an unset approval is a no-op.
pub open spec fn revoke_spec(s: StateV, caller: Address, token_id: u128) -> Result<
    StateV,
    ContractError,
> {
    if !s.owners.contains_key(token_id) {
        Err(ContractError::TokenNotFound)
    } else if s.owners[token_id] != caller {
        Err(ContractError::Unauthorized)
    } else {
        Ok(StateV { approvals: s.approvals.remove(token_id), ..s })
    }
}

/// The ledger after granting blanket delegation to an operator.
pub open spec fn approve_for_all_apply(s: StateV, caller: Address, operator: Address) -> StateV {
    StateV { operators: s.operators.insert((caller, operator)), ..s }
}

/// The ledger after withdrawing an operator's blanket delegation.
pub open spec fn revoke_for_all_apply(s: StateV, caller: Address, operator: Address) -> StateV {
    StateV { operators: s.operators.remove((caller, operator)), ..s }
}

/// The outcome of a burn: the token must be owned and only its owner may
/// burn it. The ownership entry and the approval disappear; the domain and
/// its records are untouched.
pub open spec fn burn_spec(s: StateV, caller: Address, token_id: u128) -> Result<
    StateV,
    ContractError,
> {
    if !s.owners.contains_key(token_id) {
        Err(ContractError::TokenNotFound)
    } else if s.owners[token_id] != caller {
        Err(ContractError::Unauthorized)
    } else {
        Ok(StateV { owners: s.owners.remove(token_id), approvals: s.approvals.remove(token_id), ..s })
    }
}

/// The outcome of a base-uri update: only the contract owner may store it.
pub open spec fn set_base_uri_spec(s: StateV, caller: Address, uri: Seq<char>) -> Result<
    StateV,
    ContractError,
> {
    if s.owner != Some(caller) {
        Err(ContractError::Unauthorized)
    } else {
        Ok(StateV { base_uri: Some(uri), ..s })
    }
}

/// The outcome of a minter rotation: only the current minter may hand the
/// authority on.
pub open spec fn update_minter_spec(s: StateV, caller: Address, new_minter: Address) -> Result<
    StateV,
    ContractError,
> {
    if caller != s.minter {
        Err(ContractError::Unauthorized)
    } else {
        Ok(StateV { minter: new_minter, ..s })
    }
}

/// Shifts a batch failure's index by `i`; a success is left alone.
pub open spec fn shift_err(r: Result<StateV, (int, ContractError)>, i: int) -> Result<
    StateV,
    (int, ContractError),
> {
    match r {
        Ok(s) => Ok(s),
        Err((j, e)) => Err((i + j, e)),
    }
}

/// The outcome of a batched mint: the requests apply in order, each seeing
/// the domains its predecessors created; the first failure aborts the whole
/// batch with its index and error, and then nothing is committed.
pub open spec fn multi_mint_spec(s: StateV, caller: Address, mints: Seq<MintV>, now: u64) -> Result<
    StateV,
    (int, ContractError),
>
    decreases mints.len(),
{
    if mints.len() == 0 {
        Ok(s)
    } else {
        match mint_spec(s, caller, mints[0], now) {
            Err(e) => Err((0, e)),
            Ok(s1) => shift_err(multi_mint_spec(s1, caller, mints.drop_first(), now), 1),
        }
    }
}

/// Whether an optional expiration stamp has passed at time `now`.
fn opt_expired(expires_at: &Option<u64>, now: u64) -> (r: bool)
    ensures
        r == spec_expired(*expires_at, now),
{
    match expires_at {
        Some(t) => *t < now,
        None => false,
    }
}

/// Whether the operator table lists the pair `(owner, operator)`.
fn has_operator(ops: &Vec<(Address, Address)>, owner: Address, operator: Address) -> (r: bool)
    ensures
        r == pair_set(ops@).contains((owner, operator)),
{
    proof {
        lemma_pair_set_contains(ops@, (owner, operator));
    }
    let mut i: usize = 0;
    while i < ops.len()
        invariant
            i <= ops@.len(),
            forall|j: int| 0 <= j < i ==> ops@[j] != (owner, operator),
        decreases ops@.len() - i,
    {
        if ops[i].0 == owner && ops[i].1 == operator {
            proof {
                lemma_pair_set_contains(ops@, (owner, operator));
                assert(ops@[i as int] == (owner, operator));
            }
            return true;
        }
        i = i + 1;
    }
    false
}

/// Index of the pair `(owner, operator)` in the operator table, if listed.
fn find_operator_index(ops: &Vec<(Address, Address)>, owner: Address, operator: Address) -> (r:
    Option<usize>)
    ensures
        match r {
            Some(i) => i < ops@.len() && ops@[i as int] == (owner, operator),
            None => !pair_set(ops@).contains((owner, operator)),
        },
{
    proof {
        lemma_pair_set_contains(ops@, (owner, operator));
    }
    let mut i: usize = 0;
    while i < ops.len()
        invariant
            i <= ops@.len(),
            forall|j: int| 0 <= j < i ==> ops@[j] != (owner, operator),
        decreases ops@.len() - i,
    {
        if ops[i].0 == owner && ops[i].1 == operator {
            proof {
                assert(ops@[i as int] == (owner, operator));
            }
            return Some(i);
        }
        i = i + 1;
    }
    None
}

/// Moves a token to a new owner. See [`transfer_spec`] for the exact
/// outcome.
pub fn execute_transfer(ctx: &CallCtx, state: &mut PnsState, msg: &PnsTransferMsg) -> (r: Result<
    (),
    ContractError,
>)
    requires
        old(state).wf(),
    ensures
        final(state).wf(),
        match transfer_spec(old(state)@, ctx.sender, msg.to, msg.token_id) {
            Ok(sv) => r == Ok::<(), ContractError>(()) && final(state)@ == sv,
            Err(e) => r == Err::<(), ContractError>(e) && final(state)@ == old(state)@,
        },
{
    let owner = match state.owners.get(&msg.token_id) {
        None => {
            return Err(ContractError::TokenNotFound);
        },
        Some(o) => *o,
    };
    if owner != ctx.sender {
        return Err(ContractError::Unauthorized);
    }
    state.owners.insert(msg.token_id, msg.to);
    state.approvals.remove(&msg.token_id);
    proof {
        assert(state@ =~= transfer_apply(old(state)@, msg.to, msg.token_id));
        assert(state.wf());
    }
    Ok(())
}

/// Moves a token on its owner's behalf. See [`transfer_from_spec`] for the
/// exact outcome.
pub fn execute_transfer_from(ctx: &CallCtx, state: &mut PnsState, msg: &PnsTransferFromMsg) -> (r:
    Result<(), ContractError>)
    requires
        old(state).wf(),
    ensures
        final(state).wf(),
        match transfer_from_spec(old(state)@, ctx.sender, msg.from, msg.to, msg.token_id) {
            Ok(sv) => r == Ok::<(), ContractError>(()) && final(state)@ == sv,
            Err(e) => r == Err::<(), ContractError>(e) && final(state)@ == old(state)@,
        },
{
    let owner = match state.owners.get(&msg.token_id) {
        None => {
            return Err(ContractError::TokenNotFound);
        },
        Some(o) => *o,
    };
    if owner != msg.from {
        return Err(ContractError::Unauthorized);
    }
    let approved = match state.approvals.get(&msg.token_id) {
        Some(a) => *a == ctx.sender,
        None => false,
    };
    let allowed = ctx.sender == msg.from || approved || has_operator(
        &state.operators,
        msg.from,
        ctx.sender,
    );
    if !allowed {
        return Err(ContractError::Unauthorized);
    }
    state.owners.insert(msg.token_id, msg.to);
    state.approvals.remove(&msg.token_id);
    proof {
        assert(state@ =~= transfer_apply(old(state)@, msg.to, msg.token_id));
        assert(state.wf());
    }
    Ok(())
}

/// Sets or replaces a token's approved spender. See [`approve_spec`] for
/// the exact outcome.
pub fn execute_approve(ctx: &CallCtx, state: &mut PnsState, msg: &PnsApproveMsg) -> (r: Result<
    (),
    ContractError,
>)
    requires
        old(state).wf(),
    ensures
        final(state).wf(),
        match approve_spec(old(state)@, ctx.sender, msg.spender, msg.token_id) {
            Ok(sv) => r == Ok::<(), ContractError>(()) && final(state)@ == sv,
            Err(e) => r == Err::<(), ContractError>(e) && final(state)@ == old(state)@,
        },
{
    let owner = match state.owners.get(&msg.token_id) {
        None => {
            return Err(ContractError::TokenNotFound);
        },
        Some(o) => *o,
    };
    if owner != ctx.sender {
        return Err(ContractError::Unauthorized);
    }
    state.approvals.insert(msg.token_id, msg.spender);
    proof {
        assert(state@ =~= StateV {
            approvals: old(state)@.approvals.insert(msg.token_id, msg.spender),
            ..old(state)@
        });
        assert(state.wf());
    }
    Ok(())
}

/// Clears a token's approved spender. See [`revoke_spec`] for the exact
/// outcome.
pub fn execute_revoke(ctx: &CallCtx, state: &mut PnsState, msg: &PnsRevokeMsg) -> (r: Result<
    (),
    ContractError,
>)
    requires
        old(state).wf(),
    ensures
        final(state).wf(),
        match revoke_spec(old(state)@, ctx.sender, msg.token_id) {
            Ok(sv) => r == Ok::<(), ContractError>(()) && final(state)@ == sv,
            Err(e) => r == Err::<(), ContractError>(e) && final(state)@ == old(state)@,
        },
{
    let owner = match state.owners.get(&msg.token_id) {
        None => {
            return Err(ContractError::TokenNotFound);
        },
        Some(o) => *o,
    };
    if owner != ctx.sender {
        return Err(ContractError::Unauthorized);
    }
    state.approvals.remove(&msg.token_id);
    proof {
        assert(state@ =~= StateV {
            approvals: old(state)@.approvals.remove(msg.token_id),
            ..old(state)@
        });
        assert(state.wf());
    }
    Ok(())
}

/// Grants an operator blanket delegation over all of the caller's tokens.
/// Granting it twice is a no-op.
pub fn execute_approve_for_all(ctx: &CallCtx, state: &mut PnsState, msg: &PnsApproveForAllMsg)
    requires
        old(state).wf(),
    ensures
        final(state).wf(),
        final(state)@ == approve_for_all_apply(old(state)@, ctx.sender, msg.operator),
{
    if has_operator(&state.operators, ctx.sender, msg.operator) {
        proof {
            assert(state@.operators =~= approve_for_all_apply(
                old(state)@,
                ctx.sender,
                msg.operator,
            ).operators);
            assert(state@ =~= approve_for_all_apply(old(state)@, ctx.sender, msg.operator));
        }
        return ;
    }
    proof {
        lemma_pair_set_contains(state.operators@, (ctx.sender, msg.operator));
        lemma_pair_set_push(state.operators@, (ctx.sender, msg.operator));
    }
    state.operators.push((ctx.sender, msg.operator));
    proof {
        assert(state@ =~= approve_for_all_apply(old(state)@, ctx.sender, msg.operator));
        assert(state.wf());
    }
}

/// Withdraws an operator's blanket delegation. Withdrawing one that was
/// never granted is a no-op.
pub fn execute_revoke_for_all(ctx: &CallCtx, state: &mut PnsState, msg: &PnsRevokeForAllMsg)
    requires
        old(state).wf(),
    ensures
        final(state).wf(),
        final(state)@ == revoke_for_all_apply(old(state)@, ctx.sender, msg.operator),
{
    match find_operator_index(&state.operators, ctx.sender, msg.operator) {
        Some(i) => {
            proof {
                lemma_pair_set_remove(state.operators@, i as int);
            }
            state.operators.remove(i);
            proof {
                assert(state@ =~= revoke_for_all_apply(old(state)@, ctx.sender, msg.operator));
                assert(state.wf());
            }
        },
        None => {
            proof {
                assert(state@.operators =~= revoke_for_all_apply(
                    old(state)@,
                    ctx.sender,
                    msg.operator,
                ).operators);
                assert(state@ =~= revoke_for_all_apply(old(state)@, ctx.sender, msg.operator));
            }
        },
    }
}

/// Removes a token's ownership entry and approval. See [`burn_spec`] for
/// the exact outcome.
pub fn execute_burn(ctx: &CallCtx, state: &mut PnsState, msg: &PnsBurnMsg) -> (r: Result<
    (),
    ContractError,
>)
    requires
        old(state).wf(),
    ensures
        final(state).wf(),
        match burn_spec(old(state)@, ctx.sender, msg.token_id) {
            Ok(sv) => r == Ok::<(), ContractError>(()) && final(state)@ == sv,
            Err(e) => r == Err::<(), ContractError>(e) && final(state)@ == old(state)@,
        },
{
    let owner = match state.owners.get(&msg.token_id) {
        None => {
            return Err(ContractError::TokenNotFound);
        },
        Some(o) => *o,
    };
    if owner != ctx.sender {
        return Err(ContractError::Unauthorized);
    }
    state.owners.remove(&msg.token_id);
    state.approvals.remove(&msg.token_id);
    proof {
        assert(state@ =~= StateV {
            owners: old(state)@.owners.remove(msg.token_id),
            approvals: old(state)@.approvals.remove(msg.token_id),
            ..old(state)@
        });
        assert(state.wf());
    }
    Ok(())
}

/// Stores a new base uri. See [`set_base_uri_spec`] for the exact outcome.
pub fn execute_set_base_uri(ctx: &CallCtx, state: &mut PnsState, msg: &PnsSetBaseUriMsg) -> (r:
    Result<(), ContractError>)
    requires
        old(state).wf(),
    ensures
        final(state).wf(),
        match set_base_uri_spec(old(state)@, ctx.sender, msg.new_base_uri@) {
            Ok(sv) => r == Ok::<(), ContractError>(()) && final(state)@ == sv,
            Err(e) => r == Err::<(), ContractError>(e) && final(state)@ == old(state)@,
        },
{
    let authorized = match &state.owner {
        Some(o) => *o == ctx.sender,
        None => false,
    };
    if !authorized {
        return Err(ContractError::Unauthorized);
    }
    state.base_uri = Some(msg.new_base_uri.clone());
    proof {
        assert(state@ =~= StateV { base_uri: Some(msg.new_base_uri@), ..old(state)@ });
        assert(state.wf());
    }
    Ok(())
}

/// Rotates the minting authority. See [`update_minter_spec`] for the exact
/// outcome.
pub fn execute_update_minter(ctx: &CallCtx, state: &mut PnsState, msg: &PnsUpdateMinterMsg) -> (r:
    Result<(), ContractError>)
    requires
        old(state).wf(),
    ensures
        final(state).wf(),
        match update_minter_spec(old(state)@, ctx.sender, msg.new_minter) {
            Ok(sv) => r == Ok::<(), ContractError>(()) && final(state)@ == sv,
            Err(e) => r == Err::<(), ContractError>(e) && final(state)@ == old(state)@,
        },
{
    if ctx.sender != state.minter {
        return Err(ContractError::Unauthorized);
    }
    state.minter = msg.new_minter;
    proof {
        assert(state@ =~= StateV { minter: msg.new_minter, ..old(state)@ });
        assert(state.wf());
    }
    Ok(())
}

/// Registers a batch of domains, all of them or none. The batch is first
/// validated in full against the state it would build up, then committed;
/// the first invalid request aborts everything with its index and error.
/// See [`multi_mint_spec`] for the exact outcome.
pub fn execute_multi_mint(ctx: &CallCtx, state: &mut PnsState, msg: &PnsMultiMintMsg) -> (r: Result<
    (),
    BatchError,
>)
    requires
        old(state).wf(),
    ensures
        final(state).wf(),
        match multi_mint_spec(old(state)@, ctx.sender, mints_view(msg.mints@), ctx.block_time) {
            Ok(sv) => r == Ok::<(), BatchError>(()) && final(state)@ == sv,
            Err(ie) => r == Err::<(), BatchError>(
                BatchError { index: ie.0 as usize, error: ie.1 },
            ) && final(state)@ == old(state)@,
        },
{
    let n = msg.mints.len();
    let ghost mv = mints_view(msg.mints@);
    let ghost s0 = state@;
    let ghost now = ctx.block_time;
    if n == 0 {
        return Ok(());
    }
    if ctx.sender != state.minter {
        proof {
            assert(mint_spec(s0, ctx.sender, mv[0], now) == Err::<StateV, ContractError>(
                ContractError::Unauthorized,
            ));
        }
        return Err(BatchError { index: 0, error: ContractError::Unauthorized });
    }
    let ghost mut sv = state@;
    proof {
        assert(mv.skip(0) =~= mv);
    }
    let mut i: usize = 0;
    while i < n
        invariant
            i <= n,
            n == msg.mints@.len(),
            n > 0,
            mv == mints_view(msg.mints@),
            mv.len() == n,
            s0 == old(state)@,
            now == ctx.block_time,
            *state == *old(state),
            old(state).wf(),
            ctx.sender == s0.minter,
            sv.minter == s0.minter,
            multi_mint_spec(s0, ctx.sender, mv, now) == shift_err(
                multi_mint_spec(sv, ctx.sender, mv.skip(i as int), now),
                i as int,
            ),
            forall|k: Seq<char>|
                #[trigger] sv.domains.contains_key(k) <==> (s0.domains.contains_key(k)
                    || exists|j: int| 0 <= j < i && mv[j].domain == k),
            forall|t: u128|
                #[trigger] sv.tokens.contains_key(t) <==> (s0.tokens.contains_key(t)
                    || exists|j: int| 0 <= j < i && mv[j].token_id == t),
            forall|k: Seq<char>|
                #[trigger] s0.domains.contains_key(k) ==> sv.domains.contains_key(k)
                    && sv.domains[k] == s0.domains[k],
            forall|j: int|
                0 <= j < i ==> sv.domains.contains_key(#[trigger] mv[j].domain)
                    && sv.domains[mv[j].domain].expires_at == mv[j].expires_at,
            forall|a: int, b: int| 0 <= a < b < i ==> mv[a].domain != mv[b].domain,
        decreases n - i,
    {
        let m = &msg.mints[i];
        proof {
            assert(m@ == mv[i as int]);
            assert(mv.skip(i as int)[0] == mv[i as int]);
        }
        // Is the domain key taken by an earlier request of the batch?
        let mut dup_domain = false;
        let mut j: usize = 0;
        while j < i
            invariant
                j <= i,
                i < n,
                n == msg.mints@.len(),
                mv == mints_view(msg.mints@),
                m@ == mv[i as int],
                dup_domain <==> exists|l: int| 0 <= l < j && mv[l].domain == mv[i as int].domain,
            decreases i - j,
        {
            if msg.mints[j].domain == m.domain {
                dup_domain = true;
                proof {
                    assert(mv[j as int].domain == mv[i as int].domain);
                }
            }
            j += 1;
        }
        if dup_domain || state.domains.contains_key(m.domain.as_str()) {
            proof {
                assert(sv.domains.contains_key(mv[i as int].domain));
                assert(mint_spec(sv, ctx.sender, mv[i as int], now) == Err::<
                    StateV,
                    ContractError,
                >(ContractError::DomainAlreadyMinted));
                assert(multi_mint_spec(sv, ctx.sender, mv.skip(i as int), now) == Err::<
                    StateV,
                    (int, ContractError),
                >((0, ContractError::DomainAlreadyMinted)));
            }
            return Err(BatchError { index: i, error: ContractError::DomainAlreadyMinted });
        }
        // Is the token id taken by an earlier request of the batch?
        let mut dup_token = false;
        let mut j: usize = 0;
        while j < i
            invariant
                j <= i,
                i < n,
                n == msg.mints@.len(),
                mv == mints_view(msg.mints@),
                m@ == mv[i as int],
                dup_token <==> exists|l: int| 0 <= l < j && mv[l].token_id == mv[i as int].token_id,
            decreases i - j,
        {
            if msg.mints[j].token_id == m.token_id {
                dup_token = true;
                proof {
                    assert(mv[j as int].token_id == mv[i as int].token_id);
                }
            }
            j += 1;
        }
        if dup_token || state.token_index.contains_key(&m.token_id) {
            proof {
                assert(!sv.domains.contains_key(mv[i as int].domain));
                assert(sv.tokens.contains_key(mv[i as int].token_id));
                assert(mint_spec(sv, ctx.sender, mv[i as int], now) == Err::<
                    StateV,
                    ContractError,
                >(ContractError::TokenAlreadyMinted));
                assert(multi_mint_spec(sv, ctx.sender, mv.skip(i as int), now) == Err::<
                    StateV,
                    (int, ContractError),
                >((0, ContractError::TokenAlreadyMinted)));
            }
            return Err(BatchError { index: i, error: ContractError::TokenAlreadyMinted });
        }
        // Does the declared parent exist, in the state or earlier in the
        // batch, and is it still live?
        match &m.parent_id {
            None => {},
            Some(p) => {
                let ghost pv = p@;
                let mut pfound = false;
                let mut pexpired = false;
                let mut j: usize = 0;
                while j < i
                    invariant
                        j <= i,
                        i < n,
                        n == msg.mints@.len(),
                        mv == mints_view(msg.mints@),
                        m@ == mv[i as int],
                        pv == p@,
                        now == ctx.block_time,
                        pfound <==> exists|l: int| 0 <= l < j && mv[l].domain == pv,
                        pfound ==> exists|l: int|
                            0 <= l < j && mv[l].domain == pv && pexpired == spec_expired(
                                mv[l].expires_at,
                                now,
                            ),
                    decreases i - j,
                {
                    if !pfound && msg.mints[j].domain == *p {
                        pexpired = opt_expired(&msg.mints[j].expires_at, ctx.block_time);
                        pfound = true;
                        proof {
                            assert(mv[j as int].domain == pv);
                        }
                    }
                    j += 1;
                }
                if pfound {
                    proof {
                        let l = choose|l: int|
                            0 <= l < i && mv[l].domain == pv && pexpired == spec_expired(
                                mv[l].expires_at,
                                now,
                            );
                        assert(sv.domains.contains_key(pv));
                        assert(sv.domains[pv].expires_at == mv[l].expires_at);
                    }
                    if pexpired {
                        proof {
                            assert(mint_spec(sv, ctx.sender, mv[i as int], now) == Err::<
                                StateV,
                                ContractError,
                            >(ContractError::DomainExpired));
                            assert(multi_mint_spec(sv, ctx.sender, mv.skip(i as int), now) == Err::<
                                StateV,
                                (int, ContractError),
                            >((0, ContractError::DomainExpired)));
                        }
                        return Err(BatchError { index: i, error: ContractError::DomainExpired });
                    }
                } else {
                    match state.domains.get(p.as_str()) {
                        None => {
                            proof {
                                assert(!sv.domains.contains_key(pv));
                                assert(mint_spec(sv, ctx.sender, mv[i as int], now) == Err::<
                                    StateV,
                                    ContractError,
                                >(ContractError::DomainNotFound));
                                assert(multi_mint_spec(sv, ctx.sender, mv.skip(i as int), now)
                                    == Err::<StateV, (int, ContractError)>(
                                    (0, ContractError::DomainNotFound),
                                ));
                            }
                            return Err(
                                BatchError { index: i, error: ContractError::DomainNotFound },
                            );
                        },
                        Some(parent) => {
                            proof {
                                assert(sv.domains.contains_key(pv));
                                assert(sv.domains[pv] == s0.domains[pv]);
                            }
                            if parent.is_expired(ctx.block_time) {
                                proof {
                                    assert(mint_spec(sv, ctx.sender, mv[i as int], now) == Err::<
                                        StateV,
                                        ContractError,
                                    >(ContractError::DomainExpired));
                                    assert(multi_mint_spec(sv, ctx.sender, mv.skip(i as int), now)
                                        == Err::<StateV, (int, ContractError)>(
                                        (0, ContractError::DomainExpired),
                                    ));
                                }
                                return Err(
                                    BatchError { index: i, error: ContractError::DomainExpired },
                                );
                            }
                        },
                    }
                }
            },
        }
        // The request is valid against the batch state built so far.
        proof {
            assert(mint_spec(sv, ctx.sender, mv[i as int], now) == Ok::<StateV, ContractError>(
                mint_apply(sv, ctx.sender, mv[i as int]),
            ));
            assert(mv.skip(i as int).drop_first() =~= mv.skip(i as int + 1));
            let svn = mint_apply(sv, ctx.sender, mv[i as int]);
            assert(multi_mint_spec(sv, ctx.sender, mv.skip(i as int), now) == shift_err(
                multi_mint_spec(svn, ctx.sender, mv.skip(i as int + 1), now),
                1,
            ));
            assert(multi_mint_spec(s0, ctx.sender, mv, now) == shift_err(
                multi_mint_spec(svn, ctx.sender, mv.skip(i as int + 1), now),
                i as int + 1,
            ));
            let di = mv[i as int].domain;
            let ti = mv[i as int].token_id;
            assert forall|k: Seq<char>| #[trigger] svn.domains.contains_key(k) implies (
            s0.domains.contains_key(k) || exists|j2: int|
                0 <= j2 < i + 1 && mv[j2].domain == k) by {
                if k == di {
                    assert(0 <= (i as int) < i + 1 && mv[i as int].domain == k);
                } else {
                    assert(sv.domains.contains_key(k));
                    if !s0.domains.contains_key(k) {
                        let j2 = choose|j2: int| 0 <= j2 < i && mv[j2].domain == k;
                        assert(0 <= j2 < i + 1 && mv[j2].domain == k);
                    }
                }
            }
            assert forall|k: Seq<char>|
                (s0.domains.contains_key(k) || exists|j2: int|
                    0 <= j2 < i + 1 && mv[j2].domain == k) implies #[trigger] svn.domains.contains_key(
                k,
            ) by {
                if s0.domains.contains_key(k) {
                    assert(sv.domains.contains_key(k));
                } else {
                    let j2 = choose|j2: int| 0 <= j2 < i + 1 && mv[j2].domain == k;
                    if j2 < i {
                        assert(sv.domains.contains_key(mv[j2].domain));
                    }
                }
            }
            assert forall|t: u128| #[trigger] svn.tokens.contains_key(t) implies (
            s0.tokens.contains_key(t) || exists|j2: int|
                0 <= j2 < i + 1 && mv[j2].token_id == t) by {
                if t == ti {
                    assert(0 <= (i as int) < i + 1 && mv[i as int].token_id == t);
                } else {
                    assert(sv.tokens.contains_key(t));
                    if !s0.tokens.contains_key(t) {
                        let j2 = choose|j2: int| 0 <= j2 < i && mv[j2].token_id == t;
                        assert(0 <= j2 < i + 1 && mv[j2].token_id == t);
                    }
                }
            }
            assert forall|t: u128|
                (s0.tokens.contains_key(t) || exists|j2: int|
                    0 <= j2 < i + 1 && mv[j2].token_id == t) implies #[trigger] svn.tokens.contains_key(
                t,
            ) by {
                if s0.tokens.contains_key(t) {
                    assert(sv.tokens.contains_key(t));
                } else {
                    let j2 = choose|j2: int| 0 <= j2 < i + 1 && mv[j2].token_id == t;
                    if j2 < i {
                        assert(sv.tokens.contains_key(mv[j2].token_id));
                    }
                }
            }
            sv = svn;
        }
        i += 1;
    }
    proof {
        assert(mv.skip(n as int) =~= Seq::<MintV>::empty());
        assert(multi_mint_spec(sv, ctx.sender, mv.skip(n as int), now) == Ok::<
            StateV,
            (int, ContractError),
        >(sv));
        assert(multi_mint_spec(s0, ctx.sender, mv, now) == Ok::<StateV, (int, ContractError)>(sv));
    }
    let ghost target = sv;
    proof {
        assert(mv.skip(0) =~= mv);
    }
    // Every request is valid: commit them in order.
    let mut i: usize = 0;
    while i < n
        invariant
            i <= n,
            n == msg.mints@.len(),
            mv == mints_view(msg.mints@),
            mv.len() == n,
            now == ctx.block_time,
            state.wf(),
            multi_mint_spec(state@, ctx.sender, mv.skip(i as int), now) == Ok::<
                StateV,
                (int, ContractError),
            >(target),
        decreases n - i,
    {
        let ghost pre = state@;
        proof {
            assert(mv.skip(i as int)[0] == mv[i as int]);
            assert(mint_spec(pre, ctx.sender, mv[i as int], now) == Ok::<StateV, ContractError>(
                mint_apply(pre, ctx.sender, mv[i as int]),
            ));
            assert(mv.skip(i as int).drop_first() =~= mv.skip(i as int + 1));
        }
        let m = &msg.mints[i];
        proof {
            assert(m@ == mv[i as int]);
        }
        let domain = Domain {
            token_id: m.token_id,
            parent_id: clone_opt_string(&m.parent_id),
            expires_at: m.expires_at,
            records: Vec::new(),
        };
        let ghost dg = domain;
        let ghost pre_domains = state.domains@;
        let ghost pre_tokens = state.token_index@;
        state.domains.insert(m.domain.clone(), domain);
        let index_key = m.domain.clone();
        let ghost ikg = index_key;
        state.token_index.insert(m.token_id, index_key);
        state.owners.insert(m.token_id, ctx.sender);
        proof {
            lemma_map_values_insert::<Seq<char>, Domain, DomainV>(
                pre_domains,
                mv[i as int].domain,
                dg,
                |d: Domain| d@,
            );
            lemma_map_values_insert::<u128, String, Seq<char>>(
                pre_tokens,
                mv[i as int].token_id,
                ikg,
                |s2: String| s2@,
            );
            assert(dg@.records =~= Map::<RecordClass, Seq<u8>>::empty());
            assert(state@.domains =~= pre.domains.insert(
                mv[i as int].domain,
                mint_apply(pre, ctx.sender, mv[i as int]).domains[mv[i as int].domain],
            ));
            assert(state@.tokens =~= pre.tokens.insert(
                mv[i as int].token_id,
                mv[i as int].domain,
            ));
            assert(state@ =~= mint_apply(pre, ctx.sender, mv[i as int]));
            assert(state.wf());
        }
        i += 1;
    }
    proof {
        assert(mv.skip(n as int) =~= Seq::<MintV>::empty());
        assert(state@ == target);
    }
    Ok(())
}

} // verus!
