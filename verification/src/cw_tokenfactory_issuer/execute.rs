//! The operations behind `execute`, one function each, and what each of them
//! does to the store as a function on plain values.
//!
//! An operation that is refused leaves the store as it was.

use crate::cw_tokenfactory_issuer::error::AllowanceKind;
use crate::cw_tokenfactory_issuer::error::ContractError;
use crate::cw_tokenfactory_issuer::error::ContractErrorView;
use crate::cw_tokenfactory_issuer::helpers::check_before_send_hook_features_enabled;
use crate::cw_tokenfactory_issuer::helpers::check_bool_allowance;
use crate::cw_tokenfactory_issuer::helpers::check_is_contract_owner;
use crate::cw_tokenfactory_issuer::helpers::load_denom;
use crate::cw_tokenfactory_issuer::helpers::require_denom;
use crate::cw_tokenfactory_issuer::helpers::require_guard;
use crate::cw_tokenfactory_issuer::helpers::require_owner;
use crate::cw_tokenfactory_issuer::helpers::require_role;
use crate::chain::Env;
use crate::chain::MessageInfo;
use crate::cw_tokenfactory_issuer::response::Metadata;
use crate::chain::ReplyOn;
use crate::cw_tokenfactory_issuer::response::Response;
use crate::cw_tokenfactory_issuer::response::ResponseView;
use crate::cw_tokenfactory_issuer::response::SubMsg;
use crate::cw_tokenfactory_issuer::response::TokenFactoryMsg;
use crate::cw_tokenfactory_issuer::response::TokenFactoryMsgView;
use crate::cw_tokenfactory_issuer::state::Role;
use crate::cw_tokenfactory_issuer::state::State;
use crate::cw_tokenfactory_issuer::state::StateView;
use crate::cw_tokenfactory_issuer::state::Status;
use vstd::prelude::*;

verus! {

/// What an operation comes to: the new store and the response, or the error.
pub type Outcome = Result<(StateView, ResponseView), ContractErrorView>;

/// The id under which the outcome of the denom's creation comes back.
pub const CREATE_DENOM_REPLY_ID: u64 = 1;

/// The id under which the outcome of the guard's registration comes back.
pub const BEFORE_SEND_HOOK_REPLY_ID: u64 = 2;

/// The store after an operation on the store `before` that came to
/// `outcome`: an operation that is refused leaves the store as it was.
pub open spec fn store_after(before: StateView, outcome: Outcome) -> StateView {
    match outcome {
        Ok((s, _)) => s,
        Err(_) => before,
    }
}

/// `res` and the store after the call are what `model` says.
pub open spec fn refines(
    before: StateView,
    after: StateView,
    res: Result<Response, ContractError>,
    model: Outcome,
) -> bool {
    &&& after == store_after(before, model)
    &&& match model {
        Ok((_, r)) => res matches Ok(x) && x@ == r,
        Err(e) => res matches Err(x) && x@ == e,
    }
}

/// The response that records `action` and nothing else.
pub open spec fn action_response(action: Seq<char>) -> ResponseView {
    ResponseView::empty().attr("action"@, action)
}

/// The message that registers `contract` as the transfer guard of `denom`.
pub open spec fn guard_registration(contract: Seq<char>, denom: Seq<char>) -> TokenFactoryMsgView {
    TokenFactoryMsgView::SetBeforeSendHook { sender: contract, denom, cosmwasm_address: contract }
}

/// Minting: the sender's mint allowance must cover `amount`; it goes down by
/// `amount`, and the token factory is asked to mint to `to_address`.
pub open spec fn mint_model(s: StateView, sender: Seq<char>, to_address: Seq<char>, amount: u128)
    -> Outcome {
    let available = s.allowance(AllowanceKind::Mint, sender);
    if amount > available {
        Err(
            ContractErrorView::InsufficientAllowance {
                kind: AllowanceKind::Mint,
                holder: sender,
                requested: amount,
                available,
            },
        )
    } else {
        match require_denom(s) {
            Err(e) => Err(e),
            Ok(denom) => Ok(
                (
                    s.with_allowance(AllowanceKind::Mint, sender, (available - amount) as u128),
                    ResponseView::empty().msg(
                        0,
                        TokenFactoryMsgView::MintTokens { denom, amount, mint_to_address: to_address },
                        ReplyOn::Never,
                    ).attr("action"@, "mint"@),
                ),
            ),
        }
    }
}

/// Burning: the sender's burn allowance must cover `amount`; it goes down by
/// `amount`, and the token factory is asked to burn from `from_address`.
pub open spec fn burn_model(s: StateView, sender: Seq<char>, from_address: Seq<char>, amount: u128)
    -> Outcome {
    let available = s.allowance(AllowanceKind::Burn, sender);
    if amount > available {
        Err(
            ContractErrorView::InsufficientAllowance {
                kind: AllowanceKind::Burn,
                holder: sender,
                requested: amount,
                available,
            },
        )
    } else {
        match require_denom(s) {
            Err(e) => Err(e),
            Ok(denom) => Ok(
                (
                    s.with_allowance(AllowanceKind::Burn, sender, (available - amount) as u128),
                    ResponseView::empty().msg(
                        0,
                        TokenFactoryMsgView::BurnTokens {
                            denom,
                            amount,
                            burn_from_address: from_address,
                        },
                        ReplyOn::Never,
                    ).attr("action"@, "burn"@),
                ),
            ),
        }
    }
}

/// Putting an address on a list or taking it off: the guard must be active
/// and the sender must hold the list's role.
pub open spec fn set_status_model(
    s: StateView,
    sender: Seq<char>,
    which: Status,
    address: Seq<char>,
    status: bool,
) -> Outcome {
    let role = match which {
        Status::Blacklisted => Role::Blacklister,
        Status::Whitelisted => Role::Whitelister,
    };
    let action = match which {
        Status::Blacklisted => "blacklist"@,
        Status::Whitelisted => "whitelist"@,
    };
    if require_guard(s) is Err {
        Err(require_guard(s)->Err_0)
    } else if require_role(s, sender, role) is Err {
        Err(require_role(s, sender, role)->Err_0)
    } else {
        Ok((s.with_status(which, address, status), action_response(action)))
    }
}

/// Freezing and unfreezing: the guard must be active and the sender must be
/// a freezer.
pub open spec fn freeze_model(s: StateView, sender: Seq<char>, status: bool) -> Outcome {
    if require_guard(s) is Err {
        Err(require_guard(s)->Err_0)
    } else if require_role(s, sender, Role::Freezer) is Err {
        Err(require_role(s, sender, Role::Freezer)->Err_0)
    } else {
        Ok((StateView { is_frozen: status, ..s }, action_response("freeze"@)))
    }
}

/// What the owner asks of the token factory for the denom: the store stays
/// as it is, and `msg`, built for the denom, goes out.
pub open spec fn owner_message_model(
    s: StateView,
    sender: Seq<char>,
    msg: spec_fn(Seq<char>) -> TokenFactoryMsgView,
    id: u64,
    reply_on: ReplyOn,
    action: Seq<char>,
) -> Outcome {
    if require_owner(s, sender) is Err {
        Err(require_owner(s, sender)->Err_0)
    } else {
        match require_denom(s) {
            Err(e) => Err(e),
            Ok(denom) => Ok(
                (s, ResponseView::empty().msg(id, msg(denom), reply_on).attr("action"@, action)),
            ),
        }
    }
}

/// Moving tokens by force, for the owner.
pub open spec fn force_transfer_model(
    s: StateView,
    sender: Seq<char>,
    amount: u128,
    from_address: Seq<char>,
    to_address: Seq<char>,
) -> Outcome {
    owner_message_model(
        s,
        sender,
        |denom: Seq<char>|
            TokenFactoryMsgView::ForceTransfer { denom, amount, from_address, to_address },
        0,
        ReplyOn::Never,
        "force_transfer"@,
    )
}

/// Handing the denom's admin rights on, for the owner.
pub open spec fn change_tokenfactory_admin_model(
    s: StateView,
    sender: Seq<char>,
    new_admin: Seq<char>,
) -> Outcome {
    owner_message_model(
        s,
        sender,
        |denom: Seq<char>| TokenFactoryMsgView::ChangeAdmin { denom, new_admin_address: new_admin },
        0,
        ReplyOn::Never,
        "change_tokenfactory_admin"@,
    )
}

/// Setting the denom's description, for the owner.
pub open spec fn set_denom_metadata_model(s: StateView, sender: Seq<char>, metadata: Metadata)
    -> Outcome {
    owner_message_model(
        s,
        sender,
        |denom: Seq<char>| TokenFactoryMsgView::SetMetadata { denom, metadata },
        0,
        ReplyOn::Never,
        "set_denom_metadata"@,
    )
}

/// Asking again for the guard, for the owner. The answer comes back under
/// `BEFORE_SEND_HOOK_REPLY_ID` whether the registration succeeds or fails.
pub open spec fn set_before_send_hook_model(s: StateView, contract: Seq<char>, sender: Seq<char>)
    -> Outcome {
    owner_message_model(
        s,
        sender,
        |denom: Seq<char>| guard_registration(contract, denom),
        BEFORE_SEND_HOOK_REPLY_ID,
        ReplyOn::Always,
        "set_before_send_hook"@,
    )
}

/// Handing the issuer to a new owner, for the owner. It holds from the next
/// operation on.
pub open spec fn change_contract_owner_model(s: StateView, sender: Seq<char>, new_owner: Seq<char>)
    -> Outcome {
    if require_owner(s, sender) is Err {
        Err(require_owner(s, sender)->Err_0)
    } else {
        Ok((StateView { owner: new_owner, ..s }, action_response("change_contract_owner"@)))
    }
}

/// Overwriting an allowance, for the owner.
pub open spec fn set_allowance_model(
    s: StateView,
    sender: Seq<char>,
    kind: AllowanceKind,
    address: Seq<char>,
    allowance: u128,
) -> Outcome {
    let action = match kind {
        AllowanceKind::Mint => "set_minter"@,
        AllowanceKind::Burn => "set_burner"@,
    };
    if require_owner(s, sender) is Err {
        Err(require_owner(s, sender)->Err_0)
    } else {
        Ok((s.with_allowance(kind, address, allowance), action_response(action)))
    }
}

/// Granting a role or taking it away, for the owner, and only while the
/// guard is active: without the guard a role could not be enforced.
pub open spec fn set_role_model(
    s: StateView,
    sender: Seq<char>,
    role: Role,
    address: Seq<char>,
    status: bool,
) -> Outcome {
    let action = match role {
        Role::Blacklister => "set_blacklister"@,
        Role::Whitelister => "set_whitelister"@,
        Role::Freezer => "set_freezer"@,
    };
    if require_owner(s, sender) is Err {
        Err(require_owner(s, sender)->Err_0)
    } else if require_guard(s) is Err {
        Err(require_guard(s)->Err_0)
    } else {
        Ok((s.with_role(role, address, status), action_response(action)))
    }
}

/// Mints `amount` to `to_address` out of the sender's mint allowance.
pub fn mint(
    state: &mut State,
    info: MessageInfo,
    to_address: String,
    amount: u128,
) -> (res: Result<Response, ContractError>)
    ensures
        refines(
            old(state)@,
            final(state)@,
            res,
            mint_model(old(state)@, info.sender@, to_address@, amount),
        ),
{
    let available = state.allowance(AllowanceKind::Mint, info.sender.as_str());
    if amount > available {
        return Err(
            ContractError::InsufficientAllowance {
                kind: AllowanceKind::Mint,
                holder: info.sender,
                requested: amount,
                available,
            },
        );
    }
    let denom = load_denom(state)?;
    state.set_allowance(AllowanceKind::Mint, info.sender, available - amount);
    let msg = TokenFactoryMsg::MintTokens { denom, amount, mint_to_address: to_address };
    Ok(Response::new().add_message(msg).add_attribute("action", "mint"))
}

/// Burns `amount` from `from_address` out of the sender's burn allowance.
pub fn burn(
    state: &mut State,
    info: MessageInfo,
    amount: u128,
    from_address: String,
) -> (res: Result<Response, ContractError>)
    ensures
        refines(
            old(state)@,
            final(state)@,
            res,
            burn_model(old(state)@, info.sender@, from_address@, amount),
        ),
{
    let available = state.allowance(AllowanceKind::Burn, info.sender.as_str());
    if amount > available {
        return Err(
            ContractError::InsufficientAllowance {
                kind: AllowanceKind::Burn,
                holder: info.sender,
                requested: amount,
                available,
            },
        );
    }
    let denom = load_denom(state)?;
    state.set_allowance(AllowanceKind::Burn, info.sender, available - amount);
    let msg = TokenFactoryMsg::BurnTokens { denom, amount, burn_from_address: from_address };
    Ok(Response::new().add_message(msg).add_attribute("action", "burn"))
}

/// Puts `address` on the blacklist or takes it off.
pub fn blacklist(
    state: &mut State,
    info: MessageInfo,
    address: String,
    status: bool,
) -> (res: Result<Response, ContractError>)
    ensures
        refines(
            old(state)@,
            final(state)@,
            res,
            set_status_model(old(state)@, info.sender@, Status::Blacklisted, address@, status),
        ),
{
    check_before_send_hook_features_enabled(state)?;
    check_bool_allowance(state, &info.sender, Role::Blacklister)?;
    state.set_status(Status::Blacklisted, address, status);
    Ok(Response::new().add_attribute("action", "blacklist"))
}

/// Puts `address` on the whitelist or takes it off.
pub fn whitelist(
    state: &mut State,
    info: MessageInfo,
    address: String,
    status: bool,
) -> (res: Result<Response, ContractError>)
    ensures
        refines(
            old(state)@,
            final(state)@,
            res,
            set_status_model(old(state)@, info.sender@, Status::Whitelisted, address@, status),
        ),
{
    check_before_send_hook_features_enabled(state)?;
    check_bool_allowance(state, &info.sender, Role::Whitelister)?;
    state.set_status(Status::Whitelisted, address, status);
    Ok(Response::new().add_attribute("action", "whitelist"))
}

/// Freezes or unfreezes all transfers.
pub fn freeze(state: &mut State, info: MessageInfo, status: bool) -> (res: Result<
    Response,
    ContractError,
>)
    ensures
        refines(old(state)@, final(state)@, res, freeze_model(old(state)@, info.sender@, status)),
{
    check_before_send_hook_features_enabled(state)?;
    check_bool_allowance(state, &info.sender, Role::Freezer)?;
    state.set_frozen(status);
    Ok(Response::new().add_attribute("action", "freeze"))
}

/// Moves `amount` from `from_address` to `to_address`, whatever the holder
/// wants.
pub fn force_transfer(
    state: &mut State,
    info: MessageInfo,
    amount: u128,
    from_address: String,
    to_address: String,
) -> (res: Result<Response, ContractError>)
    ensures
        refines(
            old(state)@,
            final(state)@,
            res,
            force_transfer_model(old(state)@, info.sender@, amount, from_address@, to_address@),
        ),
{
    check_is_contract_owner(state, &info.sender)?;
    let denom = load_denom(state)?;
    let msg = TokenFactoryMsg::ForceTransfer { denom, amount, from_address, to_address };
    Ok(Response::new().add_message(msg).add_attribute("action", "force_transfer"))
}

/// Hands the denom's admin rights at the token factory to `new_admin`.
pub fn change_tokenfactory_admin(state: &mut State, info: MessageInfo, new_admin: String) -> (res:
    Result<Response, ContractError>)
    ensures
        refines(
            old(state)@,
            final(state)@,
            res,
            change_tokenfactory_admin_model(old(state)@, info.sender@, new_admin@),
        ),
{
    check_is_contract_owner(state, &info.sender)?;
    let denom = load_denom(state)?;
    let msg = TokenFactoryMsg::ChangeAdmin { denom, new_admin_address: new_admin };
    Ok(Response::new().add_message(msg).add_attribute("action", "change_tokenfactory_admin"))
}

/// Hands the issuer to `new_owner`.
pub fn change_contract_owner(state: &mut State, info: MessageInfo, new_owner: String) -> (res:
    Result<Response, ContractError>)
    ensures
        refines(
            old(state)@,
            final(state)@,
            res,
            change_contract_owner_model(old(state)@, info.sender@, new_owner@),
        ),
{
    check_is_contract_owner(state, &info.sender)?;
    state.set_owner(new_owner);
    Ok(Response::new().add_attribute("action", "change_contract_owner"))
}

/// Overwrites the mint allowance of `address`.
pub fn set_minter(
    state: &mut State,
    info: MessageInfo,
    address: String,
    allowance: u128,
) -> (res: Result<Response, ContractError>)
    ensures
        refines(
            old(state)@,
            final(state)@,
            res,
            set_allowance_model(
                old(state)@,
                info.sender@,
                AllowanceKind::Mint,
                address@,
                allowance,
            ),
        ),
{
    check_is_contract_owner(state, &info.sender)?;
    state.set_allowance(AllowanceKind::Mint, address, allowance);
    Ok(Response::new().add_attribute("action", "set_minter"))
}

/// Overwrites the burn allowance of `address`.
pub fn set_burner(
    state: &mut State,
    info: MessageInfo,
    address: String,
    allowance: u128,
) -> (res: Result<Response, ContractError>)
    ensures
        refines(
            old(state)@,
            final(state)@,
            res,
            set_allowance_model(
                old(state)@,
                info.sender@,
                AllowanceKind::Burn,
                address@,
                allowance,
            ),
        ),
{
    check_is_contract_owner(state, &info.sender)?;
    state.set_allowance(AllowanceKind::Burn, address, allowance);
    Ok(Response::new().add_attribute("action", "set_burner"))
}

/// Asks the token factory to register the issuer as the denom's transfer
/// guard.
pub fn set_before_send_hook(state: &mut State, env: Env, info: MessageInfo) -> (res: Result<
    Response,
    ContractError,
>)
    ensures
        refines(
            old(state)@,
            final(state)@,
            res,
            set_before_send_hook_model(old(state)@, env.contract_address@, info.sender@),
        ),
{
    check_is_contract_owner(state, &info.sender)?;
    let denom = load_denom(state)?;
    let msg = TokenFactoryMsg::SetBeforeSendHook {
        sender: env.contract_address.clone(),
        denom,
        cosmwasm_address: env.contract_address,
    };
    Ok(
        Response::new().add_submessage(
            SubMsg { id: BEFORE_SEND_HOOK_REPLY_ID, msg, reply_on: ReplyOn::Always },
        ).add_attribute("action", "set_before_send_hook"),
    )
}

/// Grants `address` the blacklister role or takes it away.
pub fn set_blacklister(
    state: &mut State,
    info: MessageInfo,
    address: String,
    status: bool,
) -> (res: Result<Response, ContractError>)
    ensures
        refines(
            old(state)@,
            final(state)@,
            res,
            set_role_model(old(state)@, info.sender@, Role::Blacklister, address@, status),
        ),
{
    check_is_contract_owner(state, &info.sender)?;
    check_before_send_hook_features_enabled(state)?;
    state.set_role(Role::Blacklister, address, status);
    Ok(Response::new().add_attribute("action", "set_blacklister"))
}

/// Grants `address` the whitelister role or takes it away.
pub fn set_whitelister(
    state: &mut State,
    info: MessageInfo,
    address: String,
    status: bool,
) -> (res: Result<Response, ContractError>)
    ensures
        refines(
            old(state)@,
            final(state)@,
            res,
            set_role_model(old(state)@, info.sender@, Role::Whitelister, address@, status),
        ),
{
    check_is_contract_owner(state, &info.sender)?;
    check_before_send_hook_features_enabled(state)?;
    state.set_role(Role::Whitelister, address, status);
    Ok(Response::new().add_attribute("action", "set_whitelister"))
}

/// Grants `address` the freezer role or takes it away.
pub fn set_freezer(
    state: &mut State,
    info: MessageInfo,
    address: String,
    status: bool,
) -> (res: Result<Response, ContractError>)
    ensures
        refines(
            old(state)@,
            final(state)@,
            res,
            set_role_model(old(state)@, info.sender@, Role::Freezer, address@, status),
        ),
{
    check_is_contract_owner(state, &info.sender)?;
    check_before_send_hook_features_enabled(state)?;
    state.set_role(Role::Freezer, address, status);
    Ok(Response::new().add_attribute("action", "set_freezer"))
}

/// Sets the bank's description of the denom.
pub fn set_denom_metadata(state: &mut State, info: MessageInfo, metadata: Metadata) -> (res:
    Result<Response, ContractError>)
    ensures
        refines(
            old(state)@,
            final(state)@,
            res,
            set_denom_metadata_model(old(state)@, info.sender@, metadata),
        ),
{
    check_is_contract_owner(state, &info.sender)?;
    let denom = load_denom(state)?;
    let msg = TokenFactoryMsg::SetMetadata { denom, metadata };
    Ok(Response::new().add_message(msg).add_attribute("action", "set_denom_metadata"))
}

} // verus!
