//! The transfer guard: what the chain asks before every transfer.

use crate::cw_tokenfactory_issuer::error::ContractError;
use crate::cw_tokenfactory_issuer::error::ContractErrorView;
use crate::cw_tokenfactory_issuer::execute::action_response;
use crate::cw_tokenfactory_issuer::helpers::check_is_not_blacklisted;
use crate::cw_tokenfactory_issuer::helpers::check_is_not_frozen;
use crate::chain::Coin;
use crate::cw_tokenfactory_issuer::response::Response;
use crate::cw_tokenfactory_issuer::response::ResponseView;
use crate::cw_tokenfactory_issuer::state::State;
use crate::cw_tokenfactory_issuer::state::StateView;
use crate::cw_tokenfactory_issuer::state::Status;
use vstd::prelude::*;

verus! {

/// The guard's decision. The first refusal counts: a frozen denom refuses
/// every transfer; then a blacklisted sender refuses, then a blacklisted
/// receiver. The whitelist and the amount have no say.
pub open spec fn guard_decision(s: StateView, from: Seq<char>, to: Seq<char>) -> Result<
    ResponseView,
    ContractErrorView,
> {
    if s.is_frozen {
        Err(ContractErrorView::Frozen)
    } else if s.has_status(Status::Blacklisted, from) {
        Err(ContractErrorView::Blacklisted { address: from })
    } else if s.has_status(Status::Blacklisted, to) {
        Err(ContractErrorView::Blacklisted { address: to })
    } else {
        Ok(action_response("before_send"@))
    }
}

/// Decides whether a transfer of the denom from `from` to `to` may go ahead.
/// It reads the store and writes nothing.
pub fn beforesend_hook(state: &State, from: String, to: String, coin: Coin) -> (res: Result<
    Response,
    ContractError,
>)
    ensures
        match guard_decision(state@, from@, to@) {
            Ok(r) => res matches Ok(x) && x@ == r,
            Err(e) => res matches Err(x) && x@ == e,
        },
{
    check_is_not_frozen(state)?;
    check_is_not_blacklisted(state, from)?;
    check_is_not_blacklisted(state, to)?;
    Ok(Response::new().add_attribute("action", "before_send"))
}

} // verus!
