//! The answers to the queries.
//!
//! A lookup of one address answers zero or `false` where nothing is stored
//! for it. A listing answers one page in ascending order of address.

use crate::address_map::entries_view;
use crate::address_map::listing;
use crate::address_map::page;
use crate::chain::not_found;
use crate::chain::not_found_error;
use crate::cw_tokenfactory_issuer::error::AllowanceKind;
use crate::cw_tokenfactory_issuer::msg::allowances_view;
use crate::cw_tokenfactory_issuer::msg::statuses_view;
use crate::cw_tokenfactory_issuer::msg::AllowanceInfo;
use crate::cw_tokenfactory_issuer::msg::AllowanceResponse;
use crate::cw_tokenfactory_issuer::msg::AllowancesResponse;
use crate::cw_tokenfactory_issuer::msg::BlacklisteesResponse;
use crate::cw_tokenfactory_issuer::msg::BlacklisterAllowancesResponse;
use crate::cw_tokenfactory_issuer::msg::DenomResponse;
use crate::cw_tokenfactory_issuer::msg::FreezerAllowancesResponse;
use crate::cw_tokenfactory_issuer::msg::IsFrozenResponse;
use crate::cw_tokenfactory_issuer::msg::OwnerResponse;
use crate::cw_tokenfactory_issuer::msg::StatusInfo;
use crate::cw_tokenfactory_issuer::msg::StatusResponse;
use crate::cw_tokenfactory_issuer::msg::WhitelisteesResponse;
use crate::cw_tokenfactory_issuer::msg::WhitelisterAllowancesResponse;
use crate::cw_tokenfactory_issuer::state::Role;
use crate::cw_tokenfactory_issuer::state::State;
use crate::cw_tokenfactory_issuer::state::Status;
use crate::text::opt_view;
use cosmwasm_std::StdError;
use vstd::prelude::*;

verus! {

/// The largest page that a listing answers with.
pub const MAX_LIMIT: u32 = 30;

/// The size of a page where the query names none.
pub const DEFAULT_LIMIT: u32 = 10;

/// The page size that a query gets: the default where it names none, and
/// never more than the maximum.
pub open spec fn effective_limit(limit: Option<u32>) -> nat {
    let asked = match limit {
        Some(l) => l,
        None => DEFAULT_LIMIT,
    };
    if asked > MAX_LIMIT {
        MAX_LIMIT as nat
    } else {
        asked as nat
    }
}

/// The page of a map that a listing query answers with.
pub open spec fn page_of<V>(
    m: Map<Seq<char>, V>,
    start_after: Option<Seq<char>>,
    limit: Option<u32>,
) -> Seq<(Seq<char>, V)> {
    page(listing(m), start_after, effective_limit(limit))
}

/// The page size that a query gets.
pub fn page_size(limit: Option<u32>) -> (r: usize)
    ensures
        r == effective_limit(limit),
{
    let asked: u32 = match limit {
        Some(l) => l,
        None => DEFAULT_LIMIT,
    };
    if asked > MAX_LIMIT {
        MAX_LIMIT as usize
    } else {
        asked as usize
    }
}

fn to_allowance_infos(entries: Vec<(String, u128)>) -> (r: Vec<AllowanceInfo>)
    ensures
        allowances_view(r@) == entries_view(entries@),
{
    let mut out: Vec<AllowanceInfo> = Vec::new();
    let mut i: usize = 0;
    while i < entries.len()
        invariant
            i <= entries@.len(),
            out@.len() == i,
            forall|j: int|
                0 <= j < i ==> (#[trigger] out@[j]).address@ == entries@[j].0@ && out@[j].allowance
                    == entries@[j].1,
        decreases entries@.len() - i,
    {
        out.push(AllowanceInfo { address: entries[i].0.clone(), allowance: entries[i].1 });
        i = i + 1;
    }
    out
}

fn to_status_infos(entries: Vec<(String, bool)>) -> (r: Vec<StatusInfo>)
    ensures
        statuses_view(r@) == entries_view(entries@),
{
    let mut out: Vec<StatusInfo> = Vec::new();
    let mut i: usize = 0;
    while i < entries.len()
        invariant
            i <= entries@.len(),
            out@.len() == i,
            forall|j: int|
                0 <= j < i ==> (#[trigger] out@[j]).address@ == entries@[j].0@ && out@[j].status
                    == entries@[j].1,
        decreases entries@.len() - i,
    {
        out.push(StatusInfo { address: entries[i].0.clone(), status: entries[i].1 });
        i = i + 1;
    }
    out
}

/// Whether transfers are frozen.
pub fn query_is_frozen(state: &State) -> (r: IsFrozenResponse)
    ensures
        r.is_frozen == state@.is_frozen,
{
    IsFrozenResponse { is_frozen: state.is_frozen() }
}

/// The denom, or the chain's `NotFound` error where none is known yet.
pub fn query_denom(state: &State) -> (r: Result<DenomResponse, StdError>)
    ensures
        match state@.denom {
            Some(denom) => r matches Ok(x) && x.denom@ == denom,
            None => r matches Err(e) && e == not_found_error("denom"@),
        },
{
    match state.denom() {
        Some(denom) => Ok(DenomResponse { denom: denom.clone() }),
        None => Err(not_found("denom")),
    }
}

/// The owner.
pub fn query_owner(state: &State) -> (r: OwnerResponse)
    ensures
        r.address@ == state@.owner,
{
    OwnerResponse { address: state.owner().clone() }
}

/// What `address` may still mint.
pub fn query_mint_allowance(state: &State, address: String) -> (r: AllowanceResponse)
    ensures
        r.allowance == state@.allowance(AllowanceKind::Mint, address@),
{
    AllowanceResponse { allowance: state.allowance(AllowanceKind::Mint, address.as_str()) }
}

/// What `address` may still burn.
pub fn query_burn_allowance(state: &State, address: String) -> (r: AllowanceResponse)
    ensures
        r.allowance == state@.allowance(AllowanceKind::Burn, address@),
{
    AllowanceResponse { allowance: state.allowance(AllowanceKind::Burn, address.as_str()) }
}

/// One page of the mint allowances.
pub fn query_mint_allowances(state: &State, start_after: Option<String>, limit: Option<u32>) -> (r:
    AllowancesResponse)
    ensures
        allowances_view(r.allowances@) == page_of(
            state@.minter_allowances,
            opt_view(start_after),
            limit,
        ),
{
    let entries = state.list_allowances(AllowanceKind::Mint, &start_after, page_size(limit));
    AllowancesResponse { allowances: to_allowance_infos(entries) }
}

/// One page of the burn allowances.
pub fn query_burn_allowances(state: &State, start_after: Option<String>, limit: Option<u32>) -> (r:
    AllowancesResponse)
    ensures
        allowances_view(r.allowances@) == page_of(
            state@.burner_allowances,
            opt_view(start_after),
            limit,
        ),
{
    let entries = state.list_allowances(AllowanceKind::Burn, &start_after, page_size(limit));
    AllowancesResponse { allowances: to_allowance_infos(entries) }
}

/// Whether `address` is on the blacklist.
pub fn query_is_blacklisted(state: &State, address: String) -> (r: StatusResponse)
    ensures
        r.status == state@.has_status(Status::Blacklisted, address@),
{
    StatusResponse { status: state.has_status(Status::Blacklisted, address.as_str()) }
}

/// One page of the blacklist.
pub fn query_blacklistees(state: &State, start_after: Option<String>, limit: Option<u32>) -> (r:
    BlacklisteesResponse)
    ensures
        statuses_view(r.blacklistees@) == page_of(
            state@.blacklisted_addresses,
            opt_view(start_after),
            limit,
        ),
{
    let entries = state.list_statuses(Status::Blacklisted, &start_after, page_size(limit));
    BlacklisteesResponse { blacklistees: to_status_infos(entries) }
}

/// Whether `address` is a blacklister.
pub fn query_is_blacklister(state: &State, address: String) -> (r: StatusResponse)
    ensures
        r.status == state@.has_role(Role::Blacklister, address@),
{
    StatusResponse { status: state.has_role(Role::Blacklister, address.as_str()) }
}

/// One page of the blacklisters.
pub fn query_blacklister_allowances(
    state: &State,
    start_after: Option<String>,
    limit: Option<u32>,
) -> (r: BlacklisterAllowancesResponse)
    ensures
        statuses_view(r.blacklisters@) == page_of(
            state@.blacklister_allowances,
            opt_view(start_after),
            limit,
        ),
{
    let entries = state.list_roles(Role::Blacklister, &start_after, page_size(limit));
    BlacklisterAllowancesResponse { blacklisters: to_status_infos(entries) }
}

/// Whether `address` is on the whitelist.
pub fn query_is_whitelisted(state: &State, address: String) -> (r: StatusResponse)
    ensures
        r.status == state@.has_status(Status::Whitelisted, address@),
{
    StatusResponse { status: state.has_status(Status::Whitelisted, address.as_str()) }
}

/// One page of the whitelist.
pub fn query_whitelistees(state: &State, start_after: Option<String>, limit: Option<u32>) -> (r:
    WhitelisteesResponse)
    ensures
        statuses_view(r.whitelistees@) == page_of(
            state@.whitelisted_addresses,
            opt_view(start_after),
            limit,
        ),
{
    let entries = state.list_statuses(Status::Whitelisted, &start_after, page_size(limit));
    WhitelisteesResponse { whitelistees: to_status_infos(entries) }
}

/// Whether `address` is a whitelister.
pub fn query_is_whitelister(state: &State, address: String) -> (r: StatusResponse)
    ensures
        r.status == state@.has_role(Role::Whitelister, address@),
{
    StatusResponse { status: state.has_role(Role::Whitelister, address.as_str()) }
}

/// One page of the whitelisters.
pub fn query_whitelister_allowances(
    state: &State,
    start_after: Option<String>,
    limit: Option<u32>,
) -> (r: WhitelisterAllowancesResponse)
    ensures
        statuses_view(r.whitelisters@) == page_of(
            state@.whitelister_allowances,
            opt_view(start_after),
            limit,
        ),
{
    let entries = state.list_roles(Role::Whitelister, &start_after, page_size(limit));
    WhitelisterAllowancesResponse { whitelisters: to_status_infos(entries) }
}

/// Whether `address` is a freezer.
pub fn query_is_freezer(state: &State, address: String) -> (r: StatusResponse)
    ensures
        r.status == state@.has_role(Role::Freezer, address@),
{
    StatusResponse { status: state.has_role(Role::Freezer, address.as_str()) }
}

/// One page of the freezers.
pub fn query_freezer_allowances(state: &State, start_after: Option<String>, limit: Option<u32>)
    -> (r: FreezerAllowancesResponse)
    ensures
        statuses_view(r.freezers@) == page_of(
            state@.freezer_allowances,
            opt_view(start_after),
            limit,
        ),
{
    let entries = state.list_roles(Role::Freezer, &start_after, page_size(limit));
    FreezerAllowancesResponse { freezers: to_status_infos(entries) }
}

} // verus!
