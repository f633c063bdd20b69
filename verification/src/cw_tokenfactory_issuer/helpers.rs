//! The checks that stand at the head of the operations.

use crate::cw_tokenfactory_issuer::error::check_view;
use crate::chain::not_found;
use crate::chain::not_found_error;
use crate::cw_tokenfactory_issuer::error::ContractError;
use crate::cw_tokenfactory_issuer::error::ContractErrorView;
use crate::cw_tokenfactory_issuer::state::Role;
use crate::cw_tokenfactory_issuer::state::State;
use crate::cw_tokenfactory_issuer::state::StateView;
use crate::cw_tokenfactory_issuer::state::Status;
use vstd::prelude::*;

verus! {

/// The owner passes; anybody else is `Unauthorized`.
pub open spec fn require_owner(s: StateView, caller: Seq<char>) -> Result<(), ContractErrorView> {
    if caller == s.owner {
        Ok(())
    } else {
        Err(ContractErrorView::Unauthorized)
    }
}

/// A holder of the role passes; anybody else is `Unauthorized`, the owner
/// too.
pub open spec fn require_role(s: StateView, caller: Seq<char>, role: Role) -> Result<
    (),
    ContractErrorView,
> {
    if s.has_role(role, caller) {
        Ok(())
    } else {
        Err(ContractErrorView::Unauthorized)
    }
}

/// Passes while the chain asks the issuer before every transfer.
pub open spec fn require_guard(s: StateView) -> Result<(), ContractErrorView> {
    if s.guard_active() {
        Ok(())
    } else {
        Err(ContractErrorView::GuardInactive)
    }
}

/// Passes unless transfers are frozen.
pub open spec fn require_not_frozen(s: StateView) -> Result<(), ContractErrorView> {
    if s.is_frozen {
        Err(ContractErrorView::Frozen)
    } else {
        Ok(())
    }
}

/// Passes unless `address` is on the blacklist.
pub open spec fn require_not_blacklisted(s: StateView, address: Seq<char>) -> Result<
    (),
    ContractErrorView,
> {
    if s.has_status(Status::Blacklisted, address) {
        Err(ContractErrorView::Blacklisted { address })
    } else {
        Ok(())
    }
}

/// The denom, or the error of a store that holds none yet.
pub open spec fn require_denom(s: StateView) -> Result<Seq<char>, ContractErrorView> {
    match s.denom {
        Some(denom) => Ok(denom),
        None => Err(ContractErrorView::Std(not_found_error("denom"@))),
    }
}

/// Passes for the owner alone.
pub fn check_is_contract_owner(state: &State, sender: &String) -> (r: Result<(), ContractError>)
    ensures
        check_view(r) == require_owner(state@, sender@),
{
    if *sender == *state.owner() {
        Ok(())
    } else {
        Err(ContractError::Unauthorized {  })
    }
}

/// Passes for the holders of `role` alone.
pub fn check_bool_allowance(state: &State, sender: &String, role: Role) -> (r: Result<
    (),
    ContractError,
>)
    ensures
        check_view(r) == require_role(state@, sender@, role),
{
    if state.has_role(role, sender.as_str()) {
        Ok(())
    } else {
        Err(ContractError::Unauthorized {  })
    }
}

/// Passes while the transfer guard is registered.
pub fn check_before_send_hook_features_enabled(state: &State) -> (r: Result<(), ContractError>)
    ensures
        check_view(r) == require_guard(state@),
{
    if state.guard_active() {
        Ok(())
    } else {
        Err(ContractError::GuardInactive {  })
    }
}

/// Passes unless transfers are frozen.
pub fn check_is_not_frozen(state: &State) -> (r: Result<(), ContractError>)
    ensures
        check_view(r) == require_not_frozen(state@),
{
    if state.is_frozen() {
        Err(ContractError::Frozen {  })
    } else {
        Ok(())
    }
}

/// Passes unless `address` is on the blacklist.
pub fn check_is_not_blacklisted(state: &State, address: String) -> (r: Result<(), ContractError>)
    ensures
        check_view(r) == require_not_blacklisted(state@, address@),
{
    if state.has_status(Status::Blacklisted, address.as_str()) {
        Err(ContractError::Blacklisted { address })
    } else {
        Ok(())
    }
}

/// A copy of the denom, or the error of a store that holds none yet.
pub fn load_denom(state: &State) -> (r: Result<String, ContractError>)
    ensures
        match require_denom(state@) {
            Ok(denom) => r matches Ok(d) && d@ == denom,
            Err(e) => r matches Err(x) && x@ == e,
        },
{
    match state.denom() {
        Some(denom) => Ok(denom.clone()),
        None => Err(ContractError::Std(not_found("denom"))),
    }
}

} // verus!
