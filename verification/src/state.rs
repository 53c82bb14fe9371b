//! The persisted contract state and its mathematical model.
//!
//! Concrete data lives in hash maps and vectors; every piece of it is
//! abstracted by a view: domains become a `Map` from key to [`DomainV`],
//! the token index, owner table and approval table become `Map`s, and the
//! operator table becomes a `Set` of `(owner, operator)` pairs. All
//! transition contracts are stated over these views.

use vstd::prelude::*;
use vstd::hash_map::HashMapWithView;
use vstd::hash_map::StringHashMap;

verus! {

broadcast use vstd::std_specs::hash::group_hash_axioms, vstd::hash_map::group_hash_map_axioms;

/// Distinguishes account identities from contract identities.
#[derive(Clone, Copy, Debug, PartialEq, Eq, Structural)]
pub enum AddressType {
    Account,
    Contract,
}

/// An identity on the ledger: the holder of domains, the sender of calls,
/// and the destination of emitted packets.
#[derive(Clone, Copy, Debug, PartialEq, Eq, Structural)]
pub struct Address {
    pub address_type: AddressType,
    pub identifier: u128,
}

/// The host-supplied context of one invocation: the caller's identity and
/// the current ledger time. Time is always handed in explicitly, never read
/// from a clock, so transitions stay deterministic.
#[derive(Clone, Copy, Debug, PartialEq, Eq, Structural)]
pub struct CallCtx {
    pub sender: Address,
    pub block_time: u64,
}

/// The closed set of record categories a domain may hold, at most one
/// record per class. New categories may be added at the end; existing ones
/// keep their place.
#[derive(Clone, Copy, Debug, PartialEq, Eq, Structural)]
pub enum RecordClass {
    Wallet,
    Uri,
    Twitter,
}

/// The payload stored for one record class of a domain.
#[derive(Clone, Debug, PartialEq, Eq)]
pub struct Record {
    pub data: Vec<u8>,
}

/// One class-to-record binding inside a domain's record store.
#[derive(Clone, Debug, PartialEq, Eq)]
pub struct RecordEntry {
    pub class: RecordClass,
    pub record: Record,
}

/// Abstract value of a domain entry.
#[verifier::ext_equal]
pub ghost struct DomainV {
    pub token_id: u128,
    pub parent_id: Option<Seq<char>>,
    pub expires_at: Option<u64>,
    pub records: Map<RecordClass, Seq<u8>>,
}

/// Whether an optional expiration stamp has passed at time `now`.
/// `None` means the domain never expires.
pub open spec fn spec_expired(expires_at: Option<u64>, now: u64) -> bool {
    match expires_at {
        Some(t) => t < now,
        None => false,
    }
}

impl DomainV {
    /// The domain counts as expired exactly when it has a stamp in the past.
    pub open spec fn expired(self, now: u64) -> bool {
        spec_expired(self.expires_at, now)
    }
}

/// View of an optional owned string.
pub open spec fn opt_str_view(o: Option<String>) -> Option<Seq<char>> {
    match o {
        Some(s) => Some(s@),
        None => None,
    }
}

/// The record store a sequence of entries denotes: later entries win,
/// though a well-formed store never repeats a class.
pub open spec fn rec_seq_map(s: Seq<RecordEntry>) -> Map<RecordClass, Seq<u8>>
    decreases s.len(),
{
    if s.len() == 0 {
        Map::empty()
    } else {
        rec_seq_map(s.drop_last()).insert(s.last().class, s.last().record.data@)
    }
}

/// No two entries of the store carry the same class.
pub open spec fn rec_distinct(s: Seq<RecordEntry>) -> bool {
    forall|i: int, j: int| 0 <= i < j < s.len() ==> s[i].class != s[j].class
}

/// A class is in the denoted map exactly when some entry carries it.
pub proof fn lemma_rec_map_contains(s: Seq<RecordEntry>, c: RecordClass)
    ensures
        rec_seq_map(s).contains_key(c) <==> exists|i: int| 0 <= i < s.len() && s[i].class == c,
    decreases s.len(),
{
    if s.len() > 0 {
        lemma_rec_map_contains(s.drop_last(), c);
        if s.last().class == c {
            assert(s[s.len() - 1].class == c);
        } else if exists|i: int| 0 <= i < s.len() && s[i].class == c {
            let i = choose|i: int| 0 <= i < s.len() && s[i].class == c;
            assert(s.drop_last()[i] == s[i]);
        }
    }
}

/// In a well-formed store the denoted map sends each entry's class to that
/// entry's payload.
pub proof fn lemma_rec_map_get(s: Seq<RecordEntry>, i: int)
    requires
        rec_distinct(s),
        0 <= i < s.len(),
    ensures
        rec_seq_map(s).contains_key(s[i].class),
        rec_seq_map(s)[s[i].class] == s[i].record.data@,
    decreases s.len(),
{
    if i < s.len() - 1 {
        assert(rec_distinct(s.drop_last()));
        assert(s.drop_last()[i] == s[i]);
        lemma_rec_map_get(s.drop_last(), i);
        assert(s[i].class != s.last().class);
    }
}

/// Appending an entry inserts its binding into the denoted map.
pub proof fn lemma_rec_map_push(s: Seq<RecordEntry>, e: RecordEntry)
    ensures
        rec_seq_map(s.push(e)) == rec_seq_map(s).insert(e.class, e.record.data@),
{
    assert(s.push(e).drop_last() =~= s);
    assert(s.push(e).last() == e);
}

/// Overwriting the entry of a class updates only that class's binding.
pub proof fn lemma_rec_map_update(s: Seq<RecordEntry>, i: int, e: RecordEntry)
    requires
        rec_distinct(s),
        0 <= i < s.len(),
        s[i].class == e.class,
    ensures
        rec_seq_map(s.update(i, e)) == rec_seq_map(s).insert(e.class, e.record.data@),
    decreases s.len(),
{
    if i == s.len() - 1 {
        assert(s.update(i, e).drop_last() =~= s.drop_last());
        assert(s.update(i, e).last() == e);
        assert(rec_seq_map(s.update(i, e)) =~= rec_seq_map(s).insert(e.class, e.record.data@));
    } else {
        assert(rec_distinct(s.drop_last()));
        assert(s.drop_last()[i] == s[i]);
        lemma_rec_map_update(s.drop_last(), i, e);
        assert(s.update(i, e).drop_last() =~= s.drop_last().update(i, e));
        assert(s.update(i, e).last() == s.last());
        assert(s[i].class != s.last().class);
        assert(rec_seq_map(s.update(i, e)) =~= rec_seq_map(s).insert(e.class, e.record.data@));
    }
}

/// Removing the entry of a class removes exactly that class's binding.
pub proof fn lemma_rec_map_remove(s: Seq<RecordEntry>, i: int)
    requires
        rec_distinct(s),
        0 <= i < s.len(),
    ensures
        rec_seq_map(s.remove(i)) == rec_seq_map(s).remove(s[i].class),
    decreases s.len(),
{
    if i == s.len() - 1 {
        assert(s.remove(i) =~= s.drop_last());
        lemma_rec_map_contains(s.drop_last(), s[i].class);
        assert(forall|j: int| 0 <= j < s.drop_last().len() ==> s.drop_last()[j] == s[j]);
        assert(!rec_seq_map(s.drop_last()).contains_key(s[i].class));
        assert(rec_seq_map(s.remove(i)) =~= rec_seq_map(s).remove(s[i].class));
    } else {
        assert(rec_distinct(s.drop_last()));
        assert(s.drop_last()[i] == s[i]);
        lemma_rec_map_remove(s.drop_last(), i);
        assert(s.remove(i).drop_last() =~= s.drop_last().remove(i));
        assert(s.remove(i).last() == s.last());
        assert(s[i].class != s.last().class);
        assert(rec_seq_map(s.remove(i)) =~= rec_seq_map(s).remove(s[i].class));
    }
}

/// Entry sequences that agree on classes and payloads denote the same map.
pub open spec fn rec_entries_equiv(a: Seq<RecordEntry>, b: Seq<RecordEntry>) -> bool {
    a.len() == b.len() && forall|i: int|
        0 <= i < a.len() ==> a[i].class == b[i].class && a[i].record.data@ == b[i].record.data@
}

pub proof fn lemma_rec_map_congruence(a: Seq<RecordEntry>, b: Seq<RecordEntry>)
    requires
        rec_entries_equiv(a, b),
    ensures
        rec_seq_map(a) == rec_seq_map(b),
        rec_distinct(a) <==> rec_distinct(b),
    decreases a.len(),
{
    if a.len() > 0 {
        assert(rec_entries_equiv(a.drop_last(), b.drop_last()));
        lemma_rec_map_congruence(a.drop_last(), b.drop_last());
        assert(a[a.len() - 1].class == b[b.len() - 1].class);
        assert(a[a.len() - 1].record.data@ == b[b.len() - 1].record.data@);
    }
}

/// A domain entry: its token handle, an optional back-reference to a parent
/// domain, an optional expiration stamp, and its records.
#[derive(Clone, Debug, PartialEq, Eq)]
pub struct Domain {
    pub token_id: u128,
    pub parent_id: Option<String>,
    pub expires_at: Option<u64>,
    pub records: Vec<RecordEntry>,
}

impl View for Domain {
    type V = DomainV;

    open spec fn view(&self) -> DomainV {
        DomainV {
            token_id: self.token_id,
            parent_id: opt_str_view(self.parent_id),
            expires_at: self.expires_at,
            records: rec_seq_map(self.records@),
        }
    }
}

/// Index of the entry carrying `class`, if the store holds one.
pub fn find_record_index(records: &Vec<RecordEntry>, class: RecordClass) -> (r: Option<usize>)
    ensures
        match r {
            Some(i) => i < records@.len() && records@[i as int].class == class,
            None => forall|i: int| 0 <= i < records@.len() ==> records@[i].class != class,
        },
{
    let mut i: usize = 0;
    while i < records.len()
        invariant
            i <= records@.len(),
            forall|j: int| 0 <= j < i ==> records@[j].class != class,
        decreases records@.len() - i,
    {
        if records[i].class == class {
            return Some(i);
        }
        i = i + 1;
    }
    None
}

impl Domain {
    /// Each record class appears at most once.
    pub open spec fn wf(self) -> bool {
        rec_distinct(self.records@)
    }

    /// Whether the domain's expiration lies strictly before `now`.
    pub fn is_expired(&self, now: u64) -> (r: bool)
        ensures
            r == self@.expired(now),
    {
        match self.expires_at {
            Some(t) => t < now,
            None => false,
        }
    }

    /// The record stored under `class`, if any.
    pub fn get_record(&self, class: &RecordClass) -> (r: Option<&Record>)
        requires
            self.wf(),
        ensures
            match r {
                Some(rec) => self@.records.contains_key(*class) && rec.data@
                    == self@.records[*class],
                None => !self@.records.contains_key(*class),
            },
    {
        proof {
            lemma_rec_map_contains(self.records@, *class);
        }
        match find_record_index(&self.records, *class) {
            Some(i) => {
                proof {
                    lemma_rec_map_get(self.records@, i as int);
                }
                Some(&self.records[i].record)
            },
            None => None,
        }
    }
}

/// Copies a record store entry for entry. The copy denotes the same map.
pub fn clone_records(v: &Vec<RecordEntry>) -> (r: Vec<RecordEntry>)
    ensures
        rec_entries_equiv(v@, r@),
{
    let mut r: Vec<RecordEntry> = Vec::new();
    let mut i: usize = 0;
    while i < v.len()
        invariant
            i <= v@.len(),
            r@.len() == i,
            forall|j: int|
                0 <= j < i ==> r@[j].class == v@[j].class
                    && r@[j].record.data@ == v@[j].record.data@,
        decreases v@.len() - i,
    {
        let data = clone_bytes(&v[i].record.data);
        r.push(RecordEntry { class: v[i].class, record: Record { data } });
        i = i + 1;
    }
    r
}

/// Copies a byte vector.
pub fn clone_bytes(v: &Vec<u8>) -> (r: Vec<u8>)
    ensures
        r@ == v@,
{
    let mut r: Vec<u8> = Vec::new();
    let mut i: usize = 0;
    while i < v.len()
        invariant
            i <= v@.len(),
            r@ =~= v@.subrange(0, i as int),
        decreases v@.len() - i,
    {
        r.push(v[i]);
        i = i + 1;
    }
    proof {
        assert(r@ =~= v@);
    }
    r
}

/// Copies an optional domain key.
pub fn clone_opt_string(o: &Option<String>) -> (r: Option<String>)
    ensures
        opt_str_view(r) == opt_str_view(*o),
{
    match o {
        Some(s) => Some(s.clone()),
        None => None,
    }
}

/// The set of `(owner, operator)` pairs a vector of entries denotes.
pub open spec fn pair_set(s: Seq<(Address, Address)>) -> Set<(Address, Address)>
    decreases s.len(),
{
    if s.len() == 0 {
        Set::empty()
    } else {
        pair_set(s.drop_last()).insert(s.last())
    }
}

/// No pair is listed twice.
pub open spec fn pair_distinct(s: Seq<(Address, Address)>) -> bool {
    forall|i: int, j: int| 0 <= i < j < s.len() ==> s[i] != s[j]
}

/// A pair is in the denoted set exactly when some entry equals it.
pub proof fn lemma_pair_set_contains(s: Seq<(Address, Address)>, p: (Address, Address))
    ensures
        pair_set(s).contains(p) <==> exists|i: int| 0 <= i < s.len() && s[i] == p,
    decreases s.len(),
{
    if s.len() > 0 {
        lemma_pair_set_contains(s.drop_last(), p);
        if s.last() == p {
            assert(s[s.len() - 1] == p);
        } else if exists|i: int| 0 <= i < s.len() && s[i] == p {
            let i = choose|i: int| 0 <= i < s.len() && s[i] == p;
            assert(s.drop_last()[i] == s[i]);
        }
    }
}

/// Appending a pair inserts it into the denoted set.
pub proof fn lemma_pair_set_push(s: Seq<(Address, Address)>, p: (Address, Address))
    ensures
        pair_set(s.push(p)) == pair_set(s).insert(p),
{
    assert(s.push(p).drop_last() =~= s);
    assert(s.push(p).last() == p);
}

/// Removing the one entry equal to a pair removes it from the denoted set.
pub proof fn lemma_pair_set_remove(s: Seq<(Address, Address)>, i: int)
    requires
        pair_distinct(s),
        0 <= i < s.len(),
    ensures
        pair_set(s.remove(i)) == pair_set(s).remove(s[i]),
    decreases s.len(),
{
    if i == s.len() - 1 {
        assert(s.remove(i) =~= s.drop_last());
        lemma_pair_set_contains(s.drop_last(), s[i]);
        assert(forall|j: int| 0 <= j < s.drop_last().len() ==> s.drop_last()[j] == s[j]);
        assert(!pair_set(s.drop_last()).contains(s[i]));
        assert(pair_set(s.remove(i)) =~= pair_set(s).remove(s[i]));
    } else {
        assert(pair_distinct(s.drop_last()));
        assert(s.drop_last()[i] == s[i]);
        lemma_pair_set_remove(s.drop_last(), i);
        assert(s.remove(i).drop_last() =~= s.drop_last().remove(i));
        assert(s.remove(i).last() == s.last());
        assert(s[i] != s.last());
        assert(pair_set(s.remove(i)) =~= pair_set(s).remove(s[i]));
    }
}

/// Abstract value of the whole contract state.
#[verifier::ext_equal]
pub ghost struct StateV {
    pub owner: Option<Address>,
    pub minter: Address,
    pub name: Seq<char>,
    pub symbol: Seq<char>,
    pub base_uri: Option<Seq<char>>,
    pub domains: Map<Seq<char>, DomainV>,
    pub tokens: Map<u128, Seq<char>>,
    pub owners: Map<u128, Address>,
    pub approvals: Map<u128, Address>,
    pub operators: Set<(Address, Address)>,
}

/// The persisted contract state: privileged identities, token metadata, the
/// domain registry keyed by name, the token index keyed by handle, and the
/// NFT-style ownership and approval tables.
pub struct PnsState {
    pub owner: Option<Address>,
    pub minter: Address,
    pub name: String,
    pub symbol: String,
    pub base_uri: Option<String>,
    pub domains: StringHashMap<Domain>,
    pub token_index: HashMapWithView<u128, String>,
    pub owners: HashMapWithView<u128, Address>,
    pub approvals: HashMapWithView<u128, Address>,
    pub operators: Vec<(Address, Address)>,
}

impl View for PnsState {
    type V = StateV;

    open spec fn view(&self) -> StateV {
        StateV {
            owner: self.owner,
            minter: self.minter,
            name: self.name@,
            symbol: self.symbol@,
            base_uri: opt_str_view(self.base_uri),
            domains: self.domains@.map_values(|d: Domain| d@),
            tokens: self.token_index@.map_values(|s: String| s@),
            owners: self.owners@,
            approvals: self.approvals@,
            operators: pair_set(self.operators@),
        }
    }
}

impl PnsState {
    /// Internal consistency: every domain's records are well formed, the
    /// token index and the domain registry mirror each other, ownership
    /// entries only cover assigned token ids, single-token approvals only
    /// cover owned tokens, and the operator table lists no pair twice.
    pub open spec fn wf(self) -> bool {
        &&& forall|k: Seq<char>|
            self.domains@.contains_key(k) ==> (#[trigger] self.domains@[k]).wf()
        &&& forall|k: Seq<char>|
            #[trigger] self.domains@.contains_key(k) ==> self.token_index@.contains_key(
                self.domains@[k].token_id,
            ) && self.token_index@[self.domains@[k].token_id]@ == k
        &&& forall|t: u128|
            #[trigger] self.token_index@.contains_key(t) ==> self.domains@.contains_key(
                self.token_index@[t]@,
            ) && self.domains@[self.token_index@[t]@].token_id == t
        &&& forall|t: u128|
            #[trigger] self.owners@.contains_key(t) ==> self.token_index@.contains_key(t)
        &&& forall|t: u128|
            #[trigger] self.approvals@.contains_key(t) ==> self.owners@.contains_key(t)
        &&& pair_distinct(self.operators@)
    }

    /// The domain registered under `key`, if any.
    pub fn get_domain(&self, key: &str) -> (r: Option<&Domain>)
        ensures
            match r {
                Some(d) => self@.domains.contains_key(key@) && d@ == self@.domains[key@],
                None => !self@.domains.contains_key(key@),
            },
    {
        self.domains.get(key)
    }

    /// The token id of the domain registered under `key`, if any.
    pub fn get_token_id(&self, key: &str) -> (r: Option<u128>)
        ensures
            match r {
                Some(t) => self@.domains.contains_key(key@) && t == self@.domains[key@].token_id,
                None => !self@.domains.contains_key(key@),
            },
    {
        match self.domains.get(key) {
            Some(d) => Some(d.token_id),
            None => None,
        }
    }

    /// Whether the domain registered under `key` has lapsed at time `now`.
    /// A domain that is not registered, or that carries no expiration
    /// stamp, does not count as expired.
    pub fn is_expired(&self, key: &str, now: u64) -> (r: bool)
        ensures
            r == (self@.domains.contains_key(key@) && self@.domains[key@].expired(now)),
    {
        match self.domains.get(key) {
            Some(d) => d.is_expired(now),
            None => false,
        }
    }

    /// Pure ownership query: does `owner` hold the token?
    pub fn check_owner(&self, owner: Address, token_id: u128) -> (r: bool)
        ensures
            r == (self@.owners.contains_key(token_id) && self@.owners[token_id] == owner),
    {
        match self.owners.get(&token_id) {
            Some(o) => *o == owner,
            None => false,
        }
    }
}

} // verus!
