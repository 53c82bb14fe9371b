//! The cross-contract action codec.
//!
//! Every mutating operation has a fixed numeric action code and a canonical
//! positional argument list following its message's declared field order;
//! together with a destination identity they form the invocation packet
//! other contracts build and read. Once published a code is never reused or
//! reordered, and an optional field travels as one argument carrying its
//! presence flag and value. [`lemma_codec_round_trip`] proves that decoding
//! an encoded packet always gives back the original message.

use vstd::prelude::*;
use crate::msg::MintV;
use crate::msg::PnsApproveForAllMsg;
use crate::msg::PnsApproveMsg;
use crate::msg::PnsBurnMsg;
use crate::msg::PnsCheckOwnerMsg;
use crate::msg::PnsMintMsg;
use crate::msg::PnsMultiMintMsg;
use crate::msg::PnsRecordDeleteMsg;
use crate::msg::PnsRecordMintMsg;
use crate::msg::PnsRecordUpdateMsg;
use crate::msg::PnsRevokeForAllMsg;
use crate::msg::PnsRevokeMsg;
use crate::msg::PnsSetBaseUriMsg;
use crate::msg::PnsTransferFromMsg;
use crate::msg::PnsTransferMsg;
use crate::msg::PnsUpdateMinterMsg;
use crate::msg::mints_view;
use crate::state::Address;
use crate::state::RecordClass;
use crate::state::clone_bytes;
use crate::state::clone_opt_string;
use crate::state::opt_str_view;

verus! {

pub const TRANSFER: u32 = 0x01;

pub const TRANSFER_FROM: u32 = 0x03;

pub const APPROVE: u32 = 0x05;

pub const SET_BASE_URI: u32 = 0x07;

pub const MINT: u32 = 0x09;

pub const APPROVE_FOR_ALL: u32 = 0x11;

pub const REVOKE: u32 = 0x13;

pub const REVOKE_FOR_ALL: u32 = 0x15;

pub const BURN: u32 = 0x17;

pub const CHECKOWNER: u32 = 0x18;

pub const UPDATE_MINTER: u32 = 0x19;

pub const MULTI_MINT: u32 = 0x20;

pub const RECORD_MINT: u32 = 0x21;

pub const RECORD_UPDATE: u32 = 0x22;

pub const RECORD_DELETE: u32 = 0x23;

/// One positional argument of an invocation packet. An optional field is
/// one argument: its presence flag and value travel together.
#[derive(Clone, Debug, PartialEq, Eq)]
pub enum Arg {
    Addr(Address),
    Str(String),
    U128(u128),
    OptStr(Option<String>),
    OptU64(Option<u64>),
    Class(RecordClass),
    Bytes(Vec<u8>),
    Mints(Vec<PnsMintMsg>),
}

/// Abstract value of one packet argument.
pub ghost enum ArgV {
    Addr(Address),
    Str(Seq<char>),
    U128(u128),
    OptStr(Option<Seq<char>>),
    OptU64(Option<u64>),
    Class(RecordClass),
    Bytes(Seq<u8>),
    Mints(Seq<MintV>),
}

impl View for Arg {
    type V = ArgV;

    open spec fn view(&self) -> ArgV {
        match self {
            Arg::Addr(a) => ArgV::Addr(*a),
            Arg::Str(s) => ArgV::Str(s@),
            Arg::U128(t) => ArgV::U128(*t),
            Arg::OptStr(o) => ArgV::OptStr(opt_str_view(*o)),
            Arg::OptU64(o) => ArgV::OptU64(*o),
            Arg::Class(c) => ArgV::Class(*c),
            Arg::Bytes(b) => ArgV::Bytes(b@),
            Arg::Mints(m) => ArgV::Mints(mints_view(m@)),
        }
    }
}

/// The views of an argument vector, in order.
pub open spec fn args_view(s: Seq<Arg>) -> Seq<ArgV> {
    Seq::new(s.len(), |i: int| s[i]@)
}

/// A cross-contract invocation packet: destination, action code, and the
/// canonical argument list.
#[derive(Clone, Debug, PartialEq, Eq)]
pub struct Interaction {
    pub dest: Address,
    pub shortname: u32,
    pub args: Vec<Arg>,
}

/// Abstract value of an invocation packet.
#[verifier::ext_equal]
pub ghost struct InteractionV {
    pub dest: Address,
    pub shortname: u32,
    pub args: Seq<ArgV>,
}

impl View for Interaction {
    type V = InteractionV;

    open spec fn view(&self) -> InteractionV {
        InteractionV { dest: self.dest, shortname: self.shortname, args: args_view(self.args@) }
    }
}

/// One decoded action, the payload of a well-formed packet.
#[derive(Clone, Debug, PartialEq, Eq)]
pub enum ActionMsg {
    Transfer(PnsTransferMsg),
    TransferFrom(PnsTransferFromMsg),
    Approve(PnsApproveMsg),
    SetBaseUri(PnsSetBaseUriMsg),
    Mint(PnsMintMsg),
    ApproveForAll(PnsApproveForAllMsg),
    Revoke(PnsRevokeMsg),
    RevokeForAll(PnsRevokeForAllMsg),
    Burn(PnsBurnMsg),
    CheckOwner(PnsCheckOwnerMsg),
    UpdateMinter(PnsUpdateMinterMsg),
    MultiMint(PnsMultiMintMsg),
    RecordMint(PnsRecordMintMsg),
    RecordUpdate(PnsRecordUpdateMsg),
    RecordDelete(PnsRecordDeleteMsg),
}

/// Abstract value of one action.
pub ghost enum ActionV {
    Transfer { to: Address, token_id: u128 },
    TransferFrom { from: Address, to: Address, token_id: u128 },
    Approve { spender: Address, token_id: u128 },
    SetBaseUri { new_base_uri: Seq<char> },
    Mint(MintV),
    ApproveForAll { operator: Address },
    Revoke { spender: Address, token_id: u128 },
    RevokeForAll { operator: Address },
    Burn { token_id: u128 },
    CheckOwner { owner: Address, token_id: u128 },
    UpdateMinter { new_minter: Address },
    MultiMint { mints: Seq<MintV> },
    RecordMint { domain: Seq<char>, class: RecordClass, data: Seq<u8> },
    RecordUpdate { domain: Seq<char>, class: RecordClass, data: Seq<u8> },
    RecordDelete { domain: Seq<char>, class: RecordClass },
}

impl View for ActionMsg {
    type V = ActionV;

    open spec fn view(&self) -> ActionV {
        match self {
            ActionMsg::Transfer(m) => ActionV::Transfer { to: m.to, token_id: m.token_id },
            ActionMsg::TransferFrom(m) => ActionV::TransferFrom {
                from: m.from,
                to: m.to,
                token_id: m.token_id,
            },
            ActionMsg::Approve(m) => ActionV::Approve { spender: m.spender, token_id: m.token_id },
            ActionMsg::SetBaseUri(m) => ActionV::SetBaseUri { new_base_uri: m.new_base_uri@ },
            ActionMsg::Mint(m) => ActionV::Mint(m@),
            ActionMsg::ApproveForAll(m) => ActionV::ApproveForAll { operator: m.operator },
            ActionMsg::Revoke(m) => ActionV::Revoke { spender: m.spender, token_id: m.token_id },
            ActionMsg::RevokeForAll(m) => ActionV::RevokeForAll { operator: m.operator },
            ActionMsg::Burn(m) => ActionV::Burn { token_id: m.token_id },
            ActionMsg::CheckOwner(m) => ActionV::CheckOwner {
                owner: m.owner,
                token_id: m.token_id,
            },
            ActionMsg::UpdateMinter(m) => ActionV::UpdateMinter { new_minter: m.new_minter },
            ActionMsg::MultiMint(m) => ActionV::MultiMint { mints: mints_view(m.mints@) },
            ActionMsg::RecordMint(m) => ActionV::RecordMint {
                domain: m.domain@,
                class: m.class,
                data: m.data@,
            },
            ActionMsg::RecordUpdate(m) => ActionV::RecordUpdate {
                domain: m.domain@,
                class: m.class,
                data: m.data@,
            },
            ActionMsg::RecordDelete(m) => ActionV::RecordDelete {
                domain: m.domain@,
                class: m.class,
            },
        }
    }
}

/// The published action code of each action. These assignments are part of
/// the wire contract: they must never change or be reused.
pub open spec fn action_code(a: ActionV) -> u32 {
    match a {
        ActionV::Transfer { .. } => TRANSFER,
        ActionV::TransferFrom { .. } => TRANSFER_FROM,
        ActionV::Approve { .. } => APPROVE,
        ActionV::SetBaseUri { .. } => SET_BASE_URI,
        ActionV::Mint(_) => MINT,
        ActionV::ApproveForAll { .. } => APPROVE_FOR_ALL,
        ActionV::Revoke { .. } => REVOKE,
        ActionV::RevokeForAll { .. } => REVOKE_FOR_ALL,
        ActionV::Burn { .. } => BURN,
        ActionV::CheckOwner { .. } => CHECKOWNER,
        ActionV::UpdateMinter { .. } => UPDATE_MINTER,
        ActionV::MultiMint { .. } => MULTI_MINT,
        ActionV::RecordMint { .. } => RECORD_MINT,
        ActionV::RecordUpdate { .. } => RECORD_UPDATE,
        ActionV::RecordDelete { .. } => RECORD_DELETE,
    }
}

/// The canonical argument list of each action, one argument per field in
/// declaration order.
pub open spec fn action_args(a: ActionV) -> Seq<ArgV> {
    match a {
        ActionV::Transfer { to, token_id } => seq![ArgV::Addr(to), ArgV::U128(token_id)],
        ActionV::TransferFrom { from, to, token_id } => seq![
            ArgV::Addr(from),
            ArgV::Addr(to),
            ArgV::U128(token_id),
        ],
        ActionV::Approve { spender, token_id } => seq![ArgV::Addr(spender), ArgV::U128(token_id)],
        ActionV::SetBaseUri { new_base_uri } => seq![ArgV::Str(new_base_uri)],
        ActionV::Mint(m) => seq![
            ArgV::Str(m.domain),
            ArgV::U128(m.token_id),
            ArgV::OptStr(m.parent_id),
            ArgV::OptU64(m.expires_at),
        ],
        ActionV::ApproveForAll { operator } => seq![ArgV::Addr(operator)],
        ActionV::Revoke { spender, token_id } => seq![ArgV::Addr(spender), ArgV::U128(token_id)],
        ActionV::RevokeForAll { operator } => seq![ArgV::Addr(operator)],
        ActionV::Burn { token_id } => seq![ArgV::U128(token_id)],
        ActionV::CheckOwner { owner, token_id } => seq![ArgV::Addr(owner), ArgV::U128(token_id)],
        ActionV::UpdateMinter { new_minter } => seq![ArgV::Addr(new_minter)],
        ActionV::MultiMint { mints } => seq![ArgV::Mints(mints)],
        ActionV::RecordMint { domain, class, data } => seq![
            ArgV::Str(domain),
            ArgV::Class(class),
            ArgV::Bytes(data),
        ],
        ActionV::RecordUpdate { domain, class, data } => seq![
            ArgV::Str(domain),
            ArgV::Class(class),
            ArgV::Bytes(data),
        ],
        ActionV::RecordDelete { domain, class } => seq![ArgV::Str(domain), ArgV::Class(class)],
    }
}

/// The packet an action produces for a destination.
pub open spec fn encode_action(a: ActionV, dest: Address) -> InteractionV {
    InteractionV { dest, shortname: action_code(a), args: action_args(a) }
}

/// The action a packet carries, if its code and argument shape are
/// well formed.
pub open spec fn decode_action(i: InteractionV) -> Option<ActionV> {
    if i.shortname == TRANSFER && i.args.len() == 2 {
        match (i.args[0], i.args[1]) {
            (ArgV::Addr(to), ArgV::U128(token_id)) => Some(ActionV::Transfer { to, token_id }),
            _ => None,
        }
    } else if i.shortname == TRANSFER_FROM && i.args.len() == 3 {
        match (i.args[0], i.args[1], i.args[2]) {
            (ArgV::Addr(from), ArgV::Addr(to), ArgV::U128(token_id)) => Some(
                ActionV::TransferFrom { from, to, token_id },
            ),
            _ => None,
        }
    } else if i.shortname == APPROVE && i.args.len() == 2 {
        match (i.args[0], i.args[1]) {
            (ArgV::Addr(spender), ArgV::U128(token_id)) => Some(
                ActionV::Approve { spender, token_id },
            ),
            _ => None,
        }
    } else if i.shortname == SET_BASE_URI && i.args.len() == 1 {
        match i.args[0] {
            ArgV::Str(new_base_uri) => Some(ActionV::SetBaseUri { new_base_uri }),
            _ => None,
        }
    } else if i.shortname == MINT && i.args.len() == 4 {
        match (i.args[0], i.args[1], i.args[2], i.args[3]) {
            (
                ArgV::Str(domain),
                ArgV::U128(token_id),
                ArgV::OptStr(parent_id),
                ArgV::OptU64(expires_at),
            ) => Some(ActionV::Mint(MintV { domain, token_id, parent_id, expires_at })),
            _ => None,
        }
    } else if i.shortname == APPROVE_FOR_ALL && i.args.len() == 1 {
        match i.args[0] {
            ArgV::Addr(operator) => Some(ActionV::ApproveForAll { operator }),
            _ => None,
        }
    } else if i.shortname == REVOKE && i.args.len() == 2 {
        match (i.args[0], i.args[1]) {
            (ArgV::Addr(spender), ArgV::U128(token_id)) => Some(
                ActionV::Revoke { spender, token_id },
            ),
            _ => None,
        }
    } else if i.shortname == REVOKE_FOR_ALL && i.args.len() == 1 {
        match i.args[0] {
            ArgV::Addr(operator) => Some(ActionV::RevokeForAll { operator }),
            _ => None,
        }
    } else if i.shortname == BURN && i.args.len() == 1 {
        match i.args[0] {
            ArgV::U128(token_id) => Some(ActionV::Burn { token_id }),
            _ => None,
        }
    } else if i.shortname == CHECKOWNER && i.args.len() == 2 {
        match (i.args[0], i.args[1]) {
            (ArgV::Addr(owner), ArgV::U128(token_id)) => Some(
                ActionV::CheckOwner { owner, token_id },
            ),
            _ => None,
        }
    } else if i.shortname == UPDATE_MINTER && i.args.len() == 1 {
        match i.args[0] {
            ArgV::Addr(new_minter) => Some(ActionV::UpdateMinter { new_minter }),
            _ => None,
        }
    } else if i.shortname == MULTI_MINT && i.args.len() == 1 {
        match i.args[0] {
            ArgV::Mints(mints) => Some(ActionV::MultiMint { mints }),
            _ => None,
        }
    } else if i.shortname == RECORD_MINT && i.args.len() == 3 {
        match (i.args[0], i.args[1], i.args[2]) {
            (ArgV::Str(domain), ArgV::Class(class), ArgV::Bytes(data)) => Some(
                ActionV::RecordMint { domain, class, data },
            ),
            _ => None,
        }
    } else if i.shortname == RECORD_UPDATE && i.args.len() == 3 {
        match (i.args[0], i.args[1], i.args[2]) {
            (ArgV::Str(domain), ArgV::Class(class), ArgV::Bytes(data)) => Some(
                ActionV::RecordUpdate { domain, class, data },
            ),
            _ => None,
        }
    } else if i.shortname == RECORD_DELETE && i.args.len() == 2 {
        match (i.args[0], i.args[1]) {
            (ArgV::Str(domain), ArgV::Class(class)) => Some(
                ActionV::RecordDelete { domain, class },
            ),
            _ => None,
        }
    } else {
        None
    }
}

/// Decoding an encoded packet reproduces the original action, whatever the
/// action and the destination.
pub proof fn lemma_codec_round_trip(a: ActionV, dest: Address)
    ensures
        decode_action(encode_action(a, dest)) == Some(a),
{
}

/// Copies a mint request. The copy has the same abstract value.
pub fn clone_mint_msg(m: &PnsMintMsg) -> (r: PnsMintMsg)
    ensures
        r@ == m@,
{
    PnsMintMsg {
        domain: m.domain.clone(),
        token_id: m.token_id,
        parent_id: clone_opt_string(&m.parent_id),
        expires_at: m.expires_at,
    }
}

/// Copies a vector of mint requests, keeping order and abstract values.
pub fn clone_mints(v: &Vec<PnsMintMsg>) -> (r: Vec<PnsMintMsg>)
    ensures
        mints_view(r@) == mints_view(v@),
{
    let mut r: Vec<PnsMintMsg> = Vec::new();
    let mut i: usize = 0;
    while i < v.len()
        invariant
            i <= v@.len(),
            r@.len() == i,
            forall|j: int| 0 <= j < i ==> r@[j]@ == v@[j]@,
        decreases v@.len() - i,
    {
        r.push(clone_mint_msg(&v[i]));
        i = i + 1;
    }
    proof {
        assert(mints_view(r@) =~= mints_view(v@));
    }
    r
}

/// Builds the packet for an action, addressed to `dest`.
pub fn encode_interaction(msg: &ActionMsg, dest: &Address) -> (r: Interaction)
    ensures
        r@ == encode_action(msg@, *dest),
{
    let (shortname, args): (u32, Vec<Arg>) = match msg {
        ActionMsg::Transfer(m) => (TRANSFER, vec![Arg::Addr(m.to), Arg::U128(m.token_id)]),
        ActionMsg::TransferFrom(m) => (
            TRANSFER_FROM,
            vec![Arg::Addr(m.from), Arg::Addr(m.to), Arg::U128(m.token_id)],
        ),
        ActionMsg::Approve(m) => (APPROVE, vec![Arg::Addr(m.spender), Arg::U128(m.token_id)]),
        ActionMsg::SetBaseUri(m) => (SET_BASE_URI, vec![Arg::Str(m.new_base_uri.clone())]),
        ActionMsg::Mint(m) => (
            MINT,
            vec![
                Arg::Str(m.domain.clone()),
                Arg::U128(m.token_id),
                Arg::OptStr(clone_opt_string(&m.parent_id)),
                Arg::OptU64(m.expires_at),
            ],
        ),
        ActionMsg::ApproveForAll(m) => (APPROVE_FOR_ALL, vec![Arg::Addr(m.operator)]),
        ActionMsg::Revoke(m) => (REVOKE, vec![Arg::Addr(m.spender), Arg::U128(m.token_id)]),
        ActionMsg::RevokeForAll(m) => (REVOKE_FOR_ALL, vec![Arg::Addr(m.operator)]),
        ActionMsg::Burn(m) => (BURN, vec![Arg::U128(m.token_id)]),
        ActionMsg::CheckOwner(m) => (CHECKOWNER, vec![Arg::Addr(m.owner), Arg::U128(m.token_id)]),
        ActionMsg::UpdateMinter(m) => (UPDATE_MINTER, vec![Arg::Addr(m.new_minter)]),
        ActionMsg::MultiMint(m) => (MULTI_MINT, vec![Arg::Mints(clone_mints(&m.mints))]),
        ActionMsg::RecordMint(m) => (
            RECORD_MINT,
            vec![
                Arg::Str(m.domain.clone()),
                Arg::Class(m.class),
                Arg::Bytes(clone_bytes(&m.data)),
            ],
        ),
        ActionMsg::RecordUpdate(m) => (
            RECORD_UPDATE,
            vec![
                Arg::Str(m.domain.clone()),
                Arg::Class(m.class),
                Arg::Bytes(clone_bytes(&m.data)),
            ],
        ),
        ActionMsg::RecordDelete(m) => (
            RECORD_DELETE,
            vec![Arg::Str(m.domain.clone()), Arg::Class(m.class)],
        ),
    };
    let r = Interaction { dest: *dest, shortname, args };
    proof {
        assert(r@.args =~= action_args(msg@));
        assert(r@ =~= encode_action(msg@, *dest));
    }
    r
}

/// Reads a packet back into the action it carries, if its code and
/// argument shape are well formed.
pub fn decode_interaction(i: &Interaction) -> (r: Option<ActionMsg>)
    ensures
        match r {
            Some(a) => decode_action(i@) == Some(a@),
            None => decode_action(i@) == Option::<ActionV>::None,
        },
{
    if i.shortname == TRANSFER && i.args.len() == 2 {
        match (&i.args[0], &i.args[1]) {
            (Arg::Addr(to), Arg::U128(token_id)) => Some(
                ActionMsg::Transfer(PnsTransferMsg { to: *to, token_id: *token_id }),
            ),
            _ => None,
        }
    } else if i.shortname == TRANSFER_FROM && i.args.len() == 3 {
        match (&i.args[0], &i.args[1], &i.args[2]) {
            (Arg::Addr(from), Arg::Addr(to), Arg::U128(token_id)) => Some(
                ActionMsg::TransferFrom(
                    PnsTransferFromMsg { from: *from, to: *to, token_id: *token_id },
                ),
            ),
            _ => None,
        }
    } else if i.shortname == APPROVE && i.args.len() == 2 {
        match (&i.args[0], &i.args[1]) {
            (Arg::Addr(spender), Arg::U128(token_id)) => Some(
                ActionMsg::Approve(PnsApproveMsg { spender: *spender, token_id: *token_id }),
            ),
            _ => None,
        }
    } else if i.shortname == SET_BASE_URI && i.args.len() == 1 {
        match &i.args[0] {
            Arg::Str(new_base_uri) => Some(
                ActionMsg::SetBaseUri(PnsSetBaseUriMsg { new_base_uri: new_base_uri.clone() }),
            ),
            _ => None,
        }
    } else if i.shortname == MINT && i.args.len() == 4 {
        match (&i.args[0], &i.args[1], &i.args[2], &i.args[3]) {
            (Arg::Str(domain), Arg::U128(token_id), Arg::OptStr(parent_id), Arg::OptU64(
                expires_at,
            )) => Some(
                ActionMsg::Mint(
                    PnsMintMsg {
                        domain: domain.clone(),
                        token_id: *token_id,
                        parent_id: clone_opt_string(parent_id),
                        expires_at: *expires_at,
                    },
                ),
            ),
            _ => None,
        }
    } else if i.shortname == APPROVE_FOR_ALL && i.args.len() == 1 {
        match &i.args[0] {
            Arg::Addr(operator) => Some(
                ActionMsg::ApproveForAll(PnsApproveForAllMsg { operator: *operator }),
            ),
            _ => None,
        }
    } else if i.shortname == REVOKE && i.args.len() == 2 {
        match (&i.args[0], &i.args[1]) {
            (Arg::Addr(spender), Arg::U128(token_id)) => Some(
                ActionMsg::Revoke(PnsRevokeMsg { spender: *spender, token_id: *token_id }),
            ),
            _ => None,
        }
    } else if i.shortname == REVOKE_FOR_ALL && i.args.len() == 1 {
        match &i.args[0] {
            Arg::Addr(operator) => Some(
                ActionMsg::RevokeForAll(PnsRevokeForAllMsg { operator: *operator }),
            ),
            _ => None,
        }
    } else if i.shortname == BURN && i.args.len() == 1 {
        match &i.args[0] {
            Arg::U128(token_id) => Some(ActionMsg::Burn(PnsBurnMsg { token_id: *token_id })),
            _ => None,
        }
    } else if i.shortname == CHECKOWNER && i.args.len() == 2 {
        match (&i.args[0], &i.args[1]) {
            (Arg::Addr(owner), Arg::U128(token_id)) => Some(
                ActionMsg::CheckOwner(PnsCheckOwnerMsg { owner: *owner, token_id: *token_id }),
            ),
            _ => None,
        }
    } else if i.shortname == UPDATE_MINTER && i.args.len() == 1 {
        match &i.args[0] {
            Arg::Addr(new_minter) => Some(
                ActionMsg::UpdateMinter(PnsUpdateMinterMsg { new_minter: *new_minter }),
            ),
            _ => None,
        }
    } else if i.shortname == MULTI_MINT && i.args.len() == 1 {
        match &i.args[0] {
            Arg::Mints(mints) => Some(
                ActionMsg::MultiMint(PnsMultiMintMsg { mints: clone_mints(mints) }),
            ),
            _ => None,
        }
    } else if i.shortname == RECORD_MINT && i.args.len() == 3 {
        match (&i.args[0], &i.args[1], &i.args[2]) {
            (Arg::Str(domain), Arg::Class(class), Arg::Bytes(data)) => Some(
                ActionMsg::RecordMint(
                    PnsRecordMintMsg {
                        domain: domain.clone(),
                        class: *class,
                        data: clone_bytes(data),
                    },
                ),
            ),
            _ => None,
        }
    } else if i.shortname == RECORD_UPDATE && i.args.len() == 3 {
        match (&i.args[0], &i.args[1], &i.args[2]) {
            (Arg::Str(domain), Arg::Class(class), Arg::Bytes(data)) => Some(
                ActionMsg::RecordUpdate(
                    PnsRecordUpdateMsg {
                        domain: domain.clone(),
                        class: *class,
                        data: clone_bytes(data),
                    },
                ),
            ),
            _ => None,
        }
    } else if i.shortname == RECORD_DELETE && i.args.len() == 2 {
        match (&i.args[0], &i.args[1]) {
            (Arg::Str(domain), Arg::Class(class)) => Some(
                ActionMsg::RecordDelete(
                    PnsRecordDeleteMsg { domain: domain.clone(), class: *class },
                ),
            ),
            _ => None,
        }
    } else {
        None
    }
}

impl PnsTransferMsg {
    /// The invocation packet this message forms for `dest`.
    pub fn as_interaction(&self, dest: &Address) -> (r: Interaction)
        ensures
            r@ == encode_action(
                ActionV::Transfer { to: self.to, token_id: self.token_id },
                *dest,
            ),
    {
        encode_interaction(
            &ActionMsg::Transfer(PnsTransferMsg { to: self.to, token_id: self.token_id }),
            dest,
        )
    }
}

impl PnsTransferFromMsg {
    /// The invocation packet this message forms for `dest`.
    pub fn as_interaction(&self, dest: &Address) -> (r: Interaction)
        ensures
            r@ == encode_action(
                ActionV::TransferFrom { from: self.from, to: self.to, token_id: self.token_id },
                *dest,
            ),
    {
        encode_interaction(
            &ActionMsg::TransferFrom(
                PnsTransferFromMsg { from: self.from, to: self.to, token_id: self.token_id },
            ),
            dest,
        )
    }
}

impl PnsApproveMsg {
    /// The invocation packet this message forms for `dest`.
    pub fn as_interaction(&self, dest: &Address) -> (r: Interaction)
        ensures
            r@ == encode_action(
                ActionV::Approve { spender: self.spender, token_id: self.token_id },
                *dest,
            ),
    {
        encode_interaction(
            &ActionMsg::Approve(PnsApproveMsg { spender: self.spender, token_id: self.token_id }),
            dest,
        )
    }
}

impl PnsSetBaseUriMsg {
    /// The invocation packet this message forms for `dest`.
    pub fn as_interaction(&self, dest: &Address) -> (r: Interaction)
        ensures
            r@ == encode_action(ActionV::SetBaseUri { new_base_uri: self.new_base_uri@ }, *dest),
    {
        encode_interaction(
            &ActionMsg::SetBaseUri(PnsSetBaseUriMsg { new_base_uri: self.new_base_uri.clone() }),
            dest,
        )
    }
}

impl PnsMintMsg {
    /// The invocation packet this message forms for `dest`.
    pub fn as_interaction(&self, dest: &Address) -> (r: Interaction)
        ensures
            r@ == encode_action(ActionV::Mint(self@), *dest),
    {
        encode_interaction(&ActionMsg::Mint(clone_mint_msg(self)), dest)
    }
}

impl PnsApproveForAllMsg {
    /// The invocation packet this message forms for `dest`.
    pub fn as_interaction(&self, dest: &Address) -> (r: Interaction)
        ensures
            r@ == encode_action(ActionV::ApproveForAll { operator: self.operator }, *dest),
    {
        encode_interaction(
            &ActionMsg::ApproveForAll(PnsApproveForAllMsg { operator: self.operator }),
            dest,
        )
    }
}

impl PnsRevokeMsg {
    /// The invocation packet this message forms for `dest`.
    pub fn as_interaction(&self, dest: &Address) -> (r: Interaction)
        ensures
            r@ == encode_action(
                ActionV::Revoke { spender: self.spender, token_id: self.token_id },
                *dest,
            ),
    {
        encode_interaction(
            &ActionMsg::Revoke(PnsRevokeMsg { spender: self.spender, token_id: self.token_id }),
            dest,
        )
    }
}

impl PnsRevokeForAllMsg {
    /// The invocation packet this message forms for `dest`.
    pub fn as_interaction(&self, dest: &Address) -> (r: Interaction)
        ensures
            r@ == encode_action(ActionV::RevokeForAll { operator: self.operator }, *dest),
    {
        encode_interaction(
            &ActionMsg::RevokeForAll(PnsRevokeForAllMsg { operator: self.operator }),
            dest,
        )
    }
}

impl PnsBurnMsg {
    /// The invocation packet this message forms for `dest`.
    pub fn as_interaction(&self, dest: &Address) -> (r: Interaction)
        ensures
            r@ == encode_action(ActionV::Burn { token_id: self.token_id }, *dest),
    {
        encode_interaction(&ActionMsg::Burn(PnsBurnMsg { token_id: self.token_id }), dest)
    }
}

impl PnsCheckOwnerMsg {
    /// The invocation packet this message forms for `dest`.
    pub fn as_interaction(&self, dest: &Address) -> (r: Interaction)
        ensures
            r@ == encode_action(
                ActionV::CheckOwner { owner: self.owner, token_id: self.token_id },
                *dest,
            ),
    {
        encode_interaction(
            &ActionMsg::CheckOwner(PnsCheckOwnerMsg { owner: self.owner, token_id: self.token_id }),
            dest,
        )
    }
}

impl PnsUpdateMinterMsg {
    /// The invocation packet this message forms for `dest`.
    pub fn as_interaction(&self, dest: &Address) -> (r: Interaction)
        ensures
            r@ == encode_action(ActionV::UpdateMinter { new_minter: self.new_minter }, *dest),
    {
        encode_interaction(
            &ActionMsg::UpdateMinter(PnsUpdateMinterMsg { new_minter: self.new_minter }),
            dest,
        )
    }
}

impl PnsMultiMintMsg {
    /// The invocation packet this message forms for `dest`.
    pub fn as_interaction(&self, dest: &Address) -> (r: Interaction)
        ensures
            r@ == encode_action(ActionV::MultiMint { mints: mints_view(self.mints@) }, *dest),
    {
        encode_interaction(
            &ActionMsg::MultiMint(PnsMultiMintMsg { mints: clone_mints(&self.mints) }),
            dest,
        )
    }
}

impl PnsRecordMintMsg {
    /// The invocation packet this message forms for `dest`.
    pub fn as_interaction(&self, dest: &Address) -> (r: Interaction)
        ensures
            r@ == encode_action(
                ActionV::RecordMint { domain: self.domain@, class: self.class, data: self.data@ },
                *dest,
            ),
    {
        encode_interaction(
            &ActionMsg::RecordMint(
                PnsRecordMintMsg {
                    domain: self.domain.clone(),
                    class: self.class,
                    data: clone_bytes(&self.data),
                },
            ),
            dest,
        )
    }
}

impl PnsRecordUpdateMsg {
    /// The invocation packet this message forms for `dest`.
    pub fn as_interaction(&self, dest: &Address) -> (r: Interaction)
        ensures
            r@ == encode_action(
                ActionV::RecordUpdate { domain: self.domain@, class: self.class, data: self.data@ },
                *dest,
            ),
    {
        encode_interaction(
            &ActionMsg::RecordUpdate(
                PnsRecordUpdateMsg {
                    domain: self.domain.clone(),
                    class: self.class,
                    data: clone_bytes(&self.data),
                },
            ),
            dest,
        )
    }
}

impl PnsRecordDeleteMsg {
    /// The invocation packet this message forms for `dest`.
    pub fn as_interaction(&self, dest: &Address) -> (r: Interaction)
        ensures
            r@ == encode_action(
                ActionV::RecordDelete { domain: self.domain@, class: self.class },
                *dest,
            ),
    {
        encode_interaction(
            &ActionMsg::RecordDelete(
                PnsRecordDeleteMsg { domain: self.domain.clone(), class: self.class },
            ),
            dest,
        )
    }
}

} // verus!
