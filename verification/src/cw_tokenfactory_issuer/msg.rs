//! The messages of the issuer and the answers to its queries.

use crate::chain::Coin;
use crate::cw_tokenfactory_issuer::response::Metadata;
use vstd::prelude::*;

verus! {

/// How an issuer comes by its denom.
#[derive(Clone, Debug, PartialEq, Eq)]
pub enum InstantiateMsg {
    /// Have the token factory create `factory/{issuer}/{subdenom}`, and
    /// register the issuer as its transfer guard.
    NewToken { subdenom: String },
    /// Take a denom that exists. No guard can be registered this way, so
    /// what relies on the guard stays switched off.
    ExistingToken { denom: String },
}

/// The operations that change the issuer's store or move tokens.
#[derive(Clone, Debug, PartialEq, Eq)]
pub enum ExecuteMsg {
    /// Mint `amount` to `to_address`, out of the sender's mint allowance.
    Mint { to_address: String, amount: u128 },
    /// Burn `amount` from `from_address`, out of the sender's burn allowance.
    Burn { from_address: String, amount: u128 },
    /// Put `address` on the blacklist or take it off. For blacklisters.
    Blacklist { address: String, status: bool },
    /// Put `address` on the whitelist or take it off. For whitelisters.
    Whitelist { address: String, status: bool },
    /// Freeze or unfreeze all transfers. For freezers.
    Freeze { status: bool },
    /// Move `amount` from one address to another. For the owner.
    ForceTransfer { amount: u128, from_address: String, to_address: String },
    /// Hand the denom's admin rights at the token factory to `new_admin`. For
    /// the owner.
    ChangeTokenFactoryAdmin { new_admin: String },
    /// Hand the issuer to `new_owner`, at once. For the owner.
    ChangeContractOwner { new_owner: String },
    /// Overwrite the mint allowance of `address`. For the owner.
    SetMinterAllowance { address: String, allowance: u128 },
    /// Overwrite the burn allowance of `address`. For the owner.
    SetBurnerAllowance { address: String, allowance: u128 },
    /// Ask the token factory again to register the issuer as the transfer
    /// guard. For the owner.
    SetBeforeSendHook {  },
    /// Grant `address` the blacklister role or take it away. For the owner.
    SetBlacklister { address: String, status: bool },
    /// Grant `address` the whitelister role or take it away. For the owner.
    SetWhitelister { address: String, status: bool },
    /// Grant `address` the freezer role or take it away. For the owner.
    SetFreezer { address: String, status: bool },
    /// Set the bank's description of the denom. For the owner.
    SetDenomMetadata { metadata: Metadata },
}

/// What the chain itself sends.
#[derive(Clone, Debug, PartialEq, Eq)]
pub enum SudoMsg {
    /// Asks whether a transfer may go ahead.
    BlockBeforeSend { from: String, to: String, amount: Coin },
}

/// The questions that the issuer answers.
#[derive(Clone, Debug, PartialEq, Eq)]
pub enum QueryMsg {
    IsFrozen {  },
    Denom {  },
    Owner {  },
    BurnAllowance { address: String },
    BurnAllowances { start_after: Option<String>, limit: Option<u32> },
    MintAllowance { address: String },
    MintAllowances { start_after: Option<String>, limit: Option<u32> },
    IsBlacklisted { address: String },
    Blacklistees { start_after: Option<String>, limit: Option<u32> },
    IsBlacklister { address: String },
    BlacklisterAllowances { start_after: Option<String>, limit: Option<u32> },
    IsWhitelisted { address: String },
    Whitelistees { start_after: Option<String>, limit: Option<u32> },
    IsWhitelister { address: String },
    WhitelisterAllowances { start_after: Option<String>, limit: Option<u32> },
    IsFreezer { address: String },
    FreezerAllowances { start_after: Option<String>, limit: Option<u32> },
}

/// Sent with new code. It carries nothing.
#[derive(Clone, Debug, PartialEq, Eq)]
pub struct MigrateMsg {}

#[derive(Clone, Debug, PartialEq, Eq)]
pub struct IsFrozenResponse {
    pub is_frozen: bool,
}

#[derive(Clone, Debug, PartialEq, Eq)]
pub struct DenomResponse {
    pub denom: String,
}

#[derive(Clone, Debug, PartialEq, Eq)]
pub struct OwnerResponse {
    pub address: String,
}

#[derive(Clone, Debug, PartialEq, Eq)]
pub struct AllowanceResponse {
    pub allowance: u128,
}

/// An address and what it has left of an allowance.
#[derive(Clone, Debug, PartialEq, Eq)]
pub struct AllowanceInfo {
    pub address: String,
    pub allowance: u128,
}

#[derive(Clone, Debug, PartialEq, Eq)]
pub struct AllowancesResponse {
    pub allowances: Vec<AllowanceInfo>,
}

#[derive(Clone, Debug, PartialEq, Eq)]
pub struct StatusResponse {
    pub status: bool,
}

/// An address and its flag.
#[derive(Clone, Debug, PartialEq, Eq)]
pub struct StatusInfo {
    pub address: String,
    pub status: bool,
}

#[derive(Clone, Debug, PartialEq, Eq)]
pub struct BlacklisteesResponse {
    pub blacklistees: Vec<StatusInfo>,
}

#[derive(Clone, Debug, PartialEq, Eq)]
pub struct BlacklisterAllowancesResponse {
    pub blacklisters: Vec<StatusInfo>,
}

#[derive(Clone, Debug, PartialEq, Eq)]
pub struct WhitelisteesResponse {
    pub whitelistees: Vec<StatusInfo>,
}

#[derive(Clone, Debug, PartialEq, Eq)]
pub struct WhitelisterAllowancesResponse {
    pub whitelisters: Vec<StatusInfo>,
}

#[derive(Clone, Debug, PartialEq, Eq)]
pub struct FreezerAllowancesResponse {
    pub freezers: Vec<StatusInfo>,
}

/// The plain values of a list of allowances.
pub open spec fn allowances_view(v: Seq<AllowanceInfo>) -> Seq<(Seq<char>, u128)> {
    Seq::new(v.len(), |i: int| (v[i].address@, v[i].allowance))
}

/// The plain values of a list of flags.
pub open spec fn statuses_view(v: Seq<StatusInfo>) -> Seq<(Seq<char>, bool)> {
    Seq::new(v.len(), |i: int| (v[i].address@, v[i].status))
}

/// The answer to a query.
#[derive(Clone, Debug, PartialEq, Eq)]
pub enum QueryResponse {
    IsFrozen(IsFrozenResponse),
    Denom(DenomResponse),
    Owner(OwnerResponse),
    Allowance(AllowanceResponse),
    Allowances(AllowancesResponse),
    Status(StatusResponse),
    Blacklistees(BlacklisteesResponse),
    BlacklisterAllowances(BlacklisterAllowancesResponse),
    Whitelistees(WhitelisteesResponse),
    WhitelisterAllowances(WhitelisterAllowancesResponse),
    FreezerAllowances(FreezerAllowancesResponse),
}

/// The answer to a query as plain values.
pub enum QueryResponseView {
    IsFrozen { is_frozen: bool },
    Denom { denom: Seq<char> },
    Owner { address: Seq<char> },
    Allowance { allowance: u128 },
    Allowances { allowances: Seq<(Seq<char>, u128)> },
    Status { status: bool },
    Blacklistees { blacklistees: Seq<(Seq<char>, bool)> },
    BlacklisterAllowances { blacklisters: Seq<(Seq<char>, bool)> },
    Whitelistees { whitelistees: Seq<(Seq<char>, bool)> },
    WhitelisterAllowances { whitelisters: Seq<(Seq<char>, bool)> },
    FreezerAllowances { freezers: Seq<(Seq<char>, bool)> },
}

impl View for QueryResponse {
    type V = QueryResponseView;

    open spec fn view(&self) -> QueryResponseView {
        match *self {
            QueryResponse::IsFrozen(r) => QueryResponseView::IsFrozen { is_frozen: r.is_frozen },
            QueryResponse::Denom(r) => QueryResponseView::Denom { denom: r.denom@ },
            QueryResponse::Owner(r) => QueryResponseView::Owner { address: r.address@ },
            QueryResponse::Allowance(r) => QueryResponseView::Allowance { allowance: r.allowance },
            QueryResponse::Allowances(r) => QueryResponseView::Allowances {
                allowances: allowances_view(r.allowances@),
            },
            QueryResponse::Status(r) => QueryResponseView::Status { status: r.status },
            QueryResponse::Blacklistees(r) => QueryResponseView::Blacklistees {
                blacklistees: statuses_view(r.blacklistees@),
            },
            QueryResponse::BlacklisterAllowances(r) => QueryResponseView::BlacklisterAllowances {
                blacklisters: statuses_view(r.blacklisters@),
            },
            QueryResponse::Whitelistees(r) => QueryResponseView::Whitelistees {
                whitelistees: statuses_view(r.whitelistees@),
            },
            QueryResponse::WhitelisterAllowances(r) => QueryResponseView::WhitelisterAllowances {
                whitelisters: statuses_view(r.whitelisters@),
            },
            QueryResponse::FreezerAllowances(r) => QueryResponseView::FreezerAllowances {
                freezers: statuses_view(r.freezers@),
            },
        }
    }
}

} // verus!
