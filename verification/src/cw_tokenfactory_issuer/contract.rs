//! The issuer's entry points.
//!
//! `instantiate` makes the store; `execute`, `migrate` and `reply` change it;
//! `sudo` and `query` only read it. A new denom is provisioned in two steps,
//! each answered by a reply: the token factory creates the denom, then it
//! registers the issuer as the denom's transfer guard. What relies on the
//! guard works only once the second step has succeeded.

use crate::cw_tokenfactory_issuer::error::AllowanceKind;
use crate::cw_tokenfactory_issuer::error::ContractError;
use crate::cw_tokenfactory_issuer::error::ContractErrorView;
use crate::cw_tokenfactory_issuer::execute;
use crate::cw_tokenfactory_issuer::execute::action_response;
use crate::cw_tokenfactory_issuer::execute::guard_registration;
use crate::cw_tokenfactory_issuer::execute::refines;
use crate::cw_tokenfactory_issuer::execute::Outcome;
use crate::cw_tokenfactory_issuer::execute::BEFORE_SEND_HOOK_REPLY_ID;
use crate::cw_tokenfactory_issuer::execute::CREATE_DENOM_REPLY_ID;
use crate::cw_tokenfactory_issuer::hooks;
use crate::cw_tokenfactory_issuer::hooks::guard_decision;
use crate::cw_tokenfactory_issuer::msg::ExecuteMsg;
use crate::cw_tokenfactory_issuer::msg::InstantiateMsg;
use crate::cw_tokenfactory_issuer::msg::MigrateMsg;
use crate::cw_tokenfactory_issuer::msg::QueryMsg;
use crate::cw_tokenfactory_issuer::msg::QueryResponse;
use crate::cw_tokenfactory_issuer::msg::QueryResponseView;
use crate::cw_tokenfactory_issuer::msg::SudoMsg;
use crate::cw_tokenfactory_issuer::queries;
use crate::cw_tokenfactory_issuer::queries::page_of;
use crate::chain::not_found_error;
use crate::chain::outcome_view;
use crate::chain::Env;
use crate::chain::MessageInfo;
use crate::chain::Reply;
use crate::chain::ReplyOn;
use crate::cw_tokenfactory_issuer::response::Response;
use crate::cw_tokenfactory_issuer::response::ResponseView;
use crate::cw_tokenfactory_issuer::response::SubMsg;
use crate::chain::SubMsgResponse;
use crate::cw_tokenfactory_issuer::response::TokenFactoryMsg;
use crate::cw_tokenfactory_issuer::response::TokenFactoryMsgView;
use crate::cw_tokenfactory_issuer::state::initial_state;
use crate::cw_tokenfactory_issuer::state::Provisioning;
use crate::cw_tokenfactory_issuer::state::Role;
use crate::cw_tokenfactory_issuer::state::State;
use crate::cw_tokenfactory_issuer::state::StateView;
use crate::cw_tokenfactory_issuer::state::Status;
use crate::cw_tokenfactory_issuer::state::CONTRACT_NAME;
use crate::cw_tokenfactory_issuer::state::CONTRACT_VERSION;
use crate::text::opt_view;
use cosmwasm_std::StdError;
use osmosis_std::types::osmosis::tokenfactory::v1beta1::MsgCreateDenomResponse;
use vstd::prelude::*;

verus! {

/// The store and the response of an instantiation.
///
/// For a new denom the store waits for the denom, and the token factory is
/// asked to create it; a failure there undoes the instantiation. For a denom
/// that exists the store holds it, and the guard counts as not registered.
pub open spec fn instantiate_model(contract: Seq<char>, sender: Seq<char>, msg: InstantiateMsg) -> (
    StateView,
    ResponseView,
) {
    let base = action_response("instantiate"@).attr("owner"@, sender);
    match msg {
        InstantiateMsg::NewToken { subdenom } => (
            initial_state(sender),
            base.attr("subdenom"@, subdenom@).msg(
                CREATE_DENOM_REPLY_ID,
                TokenFactoryMsgView::CreateDenom { sender: contract, subdenom: subdenom@ },
                ReplyOn::Success,
            ),
        ),
        InstantiateMsg::ExistingToken { denom } => (
            StateView {
                denom: Some(denom@),
                provisioning: Provisioning::GuardInactive,
                ..initial_state(sender)
            },
            base.attr("denom"@, denom@),
        ),
    }
}

/// Makes the store of a new issuer that the sender owns. It never fails.
pub fn instantiate(env: Env, info: MessageInfo, msg: InstantiateMsg) -> (res: Result<
    (State, Response),
    ContractError,
>)
    ensures
        res matches Ok((state, response)) && (state@, response@) == instantiate_model(
            env.contract_address@,
            info.sender@,
            msg,
        ) && state@.wf(),
{
    let response = Response::new().add_attribute("action", "instantiate").add_attribute(
        "owner",
        info.sender.as_str(),
    );
    let mut state = State::new(info.sender);
    match msg {
        InstantiateMsg::NewToken { subdenom } => {
            let response = response.add_attribute("subdenom", subdenom.as_str());
            let create = TokenFactoryMsg::CreateDenom { sender: env.contract_address, subdenom };
            proof {
                use_type_invariant(&state);
            }
            Ok(
                (
                    state,
                    response.add_submessage(
                        SubMsg { id: CREATE_DENOM_REPLY_ID, msg: create, reply_on: ReplyOn::Success },
                    ),
                ),
            )
        },
        InstantiateMsg::ExistingToken { denom } => {
            let response = response.add_attribute("denom", denom.as_str());
            state.set_denom(denom);
            state.set_provisioning(Provisioning::GuardInactive);
            proof {
                use_type_invariant(&state);
            }
            Ok((state, response))
        },
    }
}

/// What a message of `execute` comes to.
pub open spec fn execute_model(s: StateView, contract: Seq<char>, sender: Seq<char>, msg: ExecuteMsg)
    -> Outcome {
    match msg {
        ExecuteMsg::Mint { to_address, amount } => execute::mint_model(
            s,
            sender,
            to_address@,
            amount,
        ),
        ExecuteMsg::Burn { from_address, amount } => execute::burn_model(
            s,
            sender,
            from_address@,
            amount,
        ),
        ExecuteMsg::Blacklist { address, status } => execute::set_status_model(
            s,
            sender,
            Status::Blacklisted,
            address@,
            status,
        ),
        ExecuteMsg::Whitelist { address, status } => execute::set_status_model(
            s,
            sender,
            Status::Whitelisted,
            address@,
            status,
        ),
        ExecuteMsg::Freeze { status } => execute::freeze_model(s, sender, status),
        ExecuteMsg::ForceTransfer { amount, from_address, to_address } =>
            execute::force_transfer_model(s, sender, amount, from_address@, to_address@),
        ExecuteMsg::ChangeTokenFactoryAdmin { new_admin } =>
            execute::change_tokenfactory_admin_model(s, sender, new_admin@),
        ExecuteMsg::ChangeContractOwner { new_owner } => execute::change_contract_owner_model(
            s,
            sender,
            new_owner@,
        ),
        ExecuteMsg::SetMinterAllowance { address, allowance } => execute::set_allowance_model(
            s,
            sender,
            AllowanceKind::Mint,
            address@,
            allowance,
        ),
        ExecuteMsg::SetBurnerAllowance { address, allowance } => execute::set_allowance_model(
            s,
            sender,
            AllowanceKind::Burn,
            address@,
            allowance,
        ),
        ExecuteMsg::SetBeforeSendHook {  } => execute::set_before_send_hook_model(
            s,
            contract,
            sender,
        ),
        ExecuteMsg::SetBlacklister { address, status } => execute::set_role_model(
            s,
            sender,
            Role::Blacklister,
            address@,
            status,
        ),
        ExecuteMsg::SetWhitelister { address, status } => execute::set_role_model(
            s,
            sender,
            Role::Whitelister,
            address@,
            status,
        ),
        ExecuteMsg::SetFreezer { address, status } => execute::set_role_model(
            s,
            sender,
            Role::Freezer,
            address@,
            status,
        ),
        ExecuteMsg::SetDenomMetadata { metadata } => execute::set_denom_metadata_model(
            s,
            sender,
            metadata,
        ),
    }
}

/// Carries out one message. A message that is refused leaves the store as it
/// was.
pub fn execute(state: &mut State, env: Env, info: MessageInfo, msg: ExecuteMsg) -> (res: Result<
    Response,
    ContractError,
>)
    ensures
        refines(
            old(state)@,
            final(state)@,
            res,
            execute_model(old(state)@, env.contract_address@, info.sender@, msg),
        ),
        final(state)@.wf(),
{
    let res = match msg {
        ExecuteMsg::Mint { to_address, amount } => execute::mint(state, info, to_address, amount),
        ExecuteMsg::Burn { from_address, amount } => execute::burn(
            state,
            info,
            amount,
            from_address,
        ),
        ExecuteMsg::Blacklist { address, status } => execute::blacklist(
            state,
            info,
            address,
            status,
        ),
        ExecuteMsg::Whitelist { address, status } => execute::whitelist(
            state,
            info,
            address,
            status,
        ),
        ExecuteMsg::Freeze { status } => execute::freeze(state, info, status),
        ExecuteMsg::ForceTransfer { amount, from_address, to_address } => execute::force_transfer(
            state,
            info,
            amount,
            from_address,
            to_address,
        ),
        ExecuteMsg::ChangeTokenFactoryAdmin { new_admin } => execute::change_tokenfactory_admin(
            state,
            info,
            new_admin,
        ),
        ExecuteMsg::ChangeContractOwner { new_owner } => execute::change_contract_owner(
            state,
            info,
            new_owner,
        ),
        ExecuteMsg::SetMinterAllowance { address, allowance } => execute::set_minter(
            state,
            info,
            address,
            allowance,
        ),
        ExecuteMsg::SetBurnerAllowance { address, allowance } => execute::set_burner(
            state,
            info,
            address,
            allowance,
        ),
        ExecuteMsg::SetBeforeSendHook {  } => execute::set_before_send_hook(state, env, info),
        ExecuteMsg::SetBlacklister { address, status } => execute::set_blacklister(
            state,
            info,
            address,
            status,
        ),
        ExecuteMsg::SetWhitelister { address, status } => execute::set_whitelister(
            state,
            info,
            address,
            status,
        ),
        ExecuteMsg::SetFreezer { address, status } => execute::set_freezer(
            state,
            info,
            address,
            status,
        ),
        ExecuteMsg::SetDenomMetadata { metadata } => execute::set_denom_metadata(
            state,
            info,
            metadata,
        ),
    };
    proof {
        use_type_invariant(&*state);
    }
    res
}

/// Answers the chain's question before a transfer: see [`guard_decision`].
pub fn sudo(state: &State, _env: Env, msg: SudoMsg) -> (res: Result<Response, ContractError>)
    ensures
        msg matches SudoMsg::BlockBeforeSend { from, to, amount } && match guard_decision(
            state@,
            from@,
            to@,
        ) {
            Ok(r) => res matches Ok(x) && x@ == r,
            Err(e) => res matches Err(x) && x@ == e,
        },
{
    match msg {
        SudoMsg::BlockBeforeSend { from, to, amount } => hooks::beforesend_hook(
            state,
            from,
            to,
            amount,
        ),
    }
}

/// The answer to a query. Only the question for a denom that is not known
/// yet has none.
pub open spec fn query_model(s: StateView, msg: QueryMsg) -> Result<QueryResponseView, StdError> {
    match msg {
        QueryMsg::IsFrozen {  } => Ok(QueryResponseView::IsFrozen { is_frozen: s.is_frozen }),
        QueryMsg::Denom {  } => match s.denom {
            Some(denom) => Ok(QueryResponseView::Denom { denom }),
            None => Err(not_found_error("denom"@)),
        },
        QueryMsg::Owner {  } => Ok(QueryResponseView::Owner { address: s.owner }),
        QueryMsg::BurnAllowance { address } => Ok(
            QueryResponseView::Allowance { allowance: s.allowance(AllowanceKind::Burn, address@) },
        ),
        QueryMsg::BurnAllowances { start_after, limit } => Ok(
            QueryResponseView::Allowances {
                allowances: page_of(s.burner_allowances, opt_view(start_after), limit),
            },
        ),
        QueryMsg::MintAllowance { address } => Ok(
            QueryResponseView::Allowance { allowance: s.allowance(AllowanceKind::Mint, address@) },
        ),
        QueryMsg::MintAllowances { start_after, limit } => Ok(
            QueryResponseView::Allowances {
                allowances: page_of(s.minter_allowances, opt_view(start_after), limit),
            },
        ),
        QueryMsg::IsBlacklisted { address } => Ok(
            QueryResponseView::Status { status: s.has_status(Status::Blacklisted, address@) },
        ),
        QueryMsg::Blacklistees { start_after, limit } => Ok(
            QueryResponseView::Blacklistees {
                blacklistees: page_of(s.blacklisted_addresses, opt_view(start_after), limit),
            },
        ),
        QueryMsg::IsBlacklister { address } => Ok(
            QueryResponseView::Status { status: s.has_role(Role::Blacklister, address@) },
        ),
        QueryMsg::BlacklisterAllowances { start_after, limit } => Ok(
            QueryResponseView::BlacklisterAllowances {
                blacklisters: page_of(s.blacklister_allowances, opt_view(start_after), limit),
            },
        ),
        QueryMsg::IsWhitelisted { address } => Ok(
            QueryResponseView::Status { status: s.has_status(Status::Whitelisted, address@) },
        ),
        QueryMsg::Whitelistees { start_after, limit } => Ok(
            QueryResponseView::Whitelistees {
                whitelistees: page_of(s.whitelisted_addresses, opt_view(start_after), limit),
            },
        ),
        QueryMsg::IsWhitelister { address } => Ok(
            QueryResponseView::Status { status: s.has_role(Role::Whitelister, address@) },
        ),
        QueryMsg::WhitelisterAllowances { start_after, limit } => Ok(
            QueryResponseView::WhitelisterAllowances {
                whitelisters: page_of(s.whitelister_allowances, opt_view(start_after), limit),
            },
        ),
        QueryMsg::IsFreezer { address } => Ok(
            QueryResponseView::Status { status: s.has_role(Role::Freezer, address@) },
        ),
        QueryMsg::FreezerAllowances { start_after, limit } => Ok(
            QueryResponseView::FreezerAllowances {
                freezers: page_of(s.freezer_allowances, opt_view(start_after), limit),
            },
        ),
    }
}

/// Answers a query.
pub fn query(state: &State, _env: Env, msg: QueryMsg) -> (res: Result<QueryResponse, StdError>)
    ensures
        match query_model(state@, msg) {
            Ok(r) => res matches Ok(x) && x@ == r,
            Err(e) => res matches Err(x) && x == e,
        },
{
    match msg {
        QueryMsg::IsFrozen {  } => Ok(QueryResponse::IsFrozen(queries::query_is_frozen(state))),
        QueryMsg::Denom {  } => match queries::query_denom(state) {
            Ok(r) => Ok(QueryResponse::Denom(r)),
            Err(e) => Err(e),
        },
        QueryMsg::Owner {  } => Ok(QueryResponse::Owner(queries::query_owner(state))),
        QueryMsg::BurnAllowance { address } => Ok(
            QueryResponse::Allowance(queries::query_burn_allowance(state, address)),
        ),
        QueryMsg::BurnAllowances { start_after, limit } => Ok(
            QueryResponse::Allowances(queries::query_burn_allowances(state, start_after, limit)),
        ),
        QueryMsg::MintAllowance { address } => Ok(
            QueryResponse::Allowance(queries::query_mint_allowance(state, address)),
        ),
        QueryMsg::MintAllowances { start_after, limit } => Ok(
            QueryResponse::Allowances(queries::query_mint_allowances(state, start_after, limit)),
        ),
        QueryMsg::IsBlacklisted { address } => Ok(
            QueryResponse::Status(queries::query_is_blacklisted(state, address)),
        ),
        QueryMsg::Blacklistees { start_after, limit } => Ok(
            QueryResponse::Blacklistees(queries::query_blacklistees(state, start_after, limit)),
        ),
        QueryMsg::IsBlacklister { address } => Ok(
            QueryResponse::Status(queries::query_is_blacklister(state, address)),
        ),
        QueryMsg::BlacklisterAllowances { start_after, limit } => Ok(
            QueryResponse::BlacklisterAllowances(
                queries::query_blacklister_allowances(state, start_after, limit),
            ),
        ),
        QueryMsg::IsWhitelisted { address } => Ok(
            QueryResponse::Status(queries::query_is_whitelisted(state, address)),
        ),
        QueryMsg::Whitelistees { start_after, limit } => Ok(
            QueryResponse::Whitelistees(queries::query_whitelistees(state, start_after, limit)),
        ),
        QueryMsg::IsWhitelister { address } => Ok(
            QueryResponse::Status(queries::query_is_whitelister(state, address)),
        ),
        QueryMsg::WhitelisterAllowances { start_after, limit } => Ok(
            QueryResponse::WhitelisterAllowances(
                queries::query_whitelister_allowances(state, start_after, limit),
            ),
        ),
        QueryMsg::IsFreezer { address } => Ok(
            QueryResponse::Status(queries::query_is_freezer(state, address)),
        ),
        QueryMsg::FreezerAllowances { start_after, limit } => Ok(
            QueryResponse::FreezerAllowances(
                queries::query_freezer_allowances(state, start_after, limit),
            ),
        ),
    }
}

/// The store after new code has taken over: it holds that code's name and
/// version, and is otherwise as it was.
pub open spec fn migrate_model(s: StateView) -> Outcome {
    Ok(
        (
            StateView { contract: CONTRACT_NAME@, version: CONTRACT_VERSION@, ..s },
            action_response("migrate"@),
        ),
    )
}

/// Records that this code has taken over the store.
pub fn migrate(state: &mut State, _env: Env, _msg: MigrateMsg) -> (res: Result<
    Response,
    ContractError,
>)
    ensures
        refines(old(state)@, final(state)@, res, migrate_model(old(state)@)),
        final(state)@.wf(),
{
    state.set_contract_version(CONTRACT_NAME, CONTRACT_VERSION);
    proof {
        use_type_invariant(&*state);
    }
    Ok(Response::new().add_attribute("action", "migrate"))
}

/// What `MsgCreateDenomResponse::try_from` makes of the outcome of the
/// creation message: the new denom, or the chain's error.
pub uninterp spec fn create_denom_reply(outcome: Result<Option<Seq<u8>>, Seq<char>>) -> Result<
    Seq<char>,
    StdError,
>;

/// Calls `MsgCreateDenomResponse::try_from` on the outcome of the creation
/// message and hands back the denom in the decoded response. That function
/// reads nothing but the outcome. It fails on an outcome that is an error,
/// and on one without data; otherwise it decodes the data.
#[verifier::external_body]
pub(crate) fn parse_create_denom_reply(outcome: &Result<SubMsgResponse, String>) -> (r: Result<
    String,
    StdError,
>)
    ensures
        match r {
            Ok(denom) => create_denom_reply(outcome_view(*outcome)) matches Ok(d) && d == denom@,
            Err(e) => create_denom_reply(outcome_view(*outcome)) matches Err(x) && x == e,
        },
        outcome_view(*outcome) is Err ==> r is Err,
        (outcome_view(*outcome) matches Ok(data) && data is None) ==> r is Err,
{
    let result = match outcome {
        Ok(response) => cosmwasm_std::SubMsgResult::Ok(
            cosmwasm_std::SubMsgResponse {
                events: Vec::new(),
                data: response.data.clone().map(cosmwasm_std::Binary),
            },
        ),
        Err(error) => cosmwasm_std::SubMsgResult::Err(error.clone()),
    };
    MsgCreateDenomResponse::try_from(result).map(|created| created.new_token_denom)
}

/// The first step of the provisioning has been answered. Where the denom
/// was created it is stored, and the second step is asked for: its answer
/// comes back whether it succeeds or fails. Where no denom can be read from
/// the answer, the chain's error is handed on. A store that holds a denom
/// has asked for none: it keeps its denom and refuses the answer.
pub open spec fn create_denom_replied_model(
    s: StateView,
    contract: Seq<char>,
    created: Result<Seq<char>, StdError>,
) -> Outcome {
    match created {
        Ok(denom) => if s.denom is Some {
            Err(ContractErrorView::UnknownReplyId { id: CREATE_DENOM_REPLY_ID })
        } else {
            Ok(
                (
                    StateView { denom: Some(denom), provisioning: Provisioning::GuardPending, ..s },
                    ResponseView::empty().attr("denom"@, denom).msg(
                        BEFORE_SEND_HOOK_REPLY_ID,
                        guard_registration(contract, denom),
                        ReplyOn::Always,
                    ),
                ),
            )
        },
        Err(e) => Err(ContractErrorView::Std(e)),
    }
}

/// Takes what was read from the answer to the creation message: stores the
/// denom and asks for the guard, or hands the error on.
pub fn create_denom_replied(state: &mut State, env: Env, created: Result<String, StdError>) -> (res:
    Result<Response, ContractError>)
    ensures
        refines(
            old(state)@,
            final(state)@,
            res,
            create_denom_replied_model(
                old(state)@,
                env.contract_address@,
                match created {
                    Ok(denom) => Ok(denom@),
                    Err(e) => Err(e),
                },
            ),
        ),
{
    match created {
        Ok(denom) => {
            if state.denom().is_some() {
                return Err(ContractError::UnknownReplyId { id: CREATE_DENOM_REPLY_ID });
            }
            state.set_denom(denom.clone());
            state.set_provisioning(Provisioning::AssetReady);
            let response = Response::new().add_attribute("denom", denom.as_str());
            let register = TokenFactoryMsg::SetBeforeSendHook {
                sender: env.contract_address.clone(),
                denom,
                cosmwasm_address: env.contract_address,
            };
            state.set_provisioning(Provisioning::GuardPending);
            Ok(
                response.add_submessage(
                    SubMsg {
                        id: BEFORE_SEND_HOOK_REPLY_ID,
                        msg: register,
                        reply_on: ReplyOn::Always,
                    },
                ),
            )
        },
        Err(e) => Err(ContractError::Std(e)),
    }
}

/// The second step of the provisioning has been answered. A success
/// switches on what relies on the guard; a failure switches it off, and is
/// no error of the issuer.
pub open spec fn before_send_hook_replied_model(s: StateView, registered: bool) -> Outcome {
    if registered {
        Ok(
            (
                StateView { provisioning: Provisioning::GuardActive, ..s },
                ResponseView::empty().attr("extra_features"@, "enabled"@),
            ),
        )
    } else {
        Ok(
            (
                StateView { provisioning: Provisioning::GuardInactive, ..s },
                ResponseView::empty().attr("extra_features"@, "disabled"@),
            ),
        )
    }
}

/// Records whether the guard was registered.
pub fn before_send_hook_replied(state: &mut State, registered: bool) -> (res: Result<
    Response,
    ContractError,
>)
    ensures
        refines(
            old(state)@,
            final(state)@,
            res,
            before_send_hook_replied_model(old(state)@, registered),
        ),
{
    if registered {
        state.set_provisioning(Provisioning::GuardActive);
        Ok(Response::new().add_attribute("extra_features", "enabled"))
    } else {
        state.set_provisioning(Provisioning::GuardInactive);
        Ok(Response::new().add_attribute("extra_features", "disabled"))
    }
}

/// What a reply comes to: the two ids that the issuer gives out lead to the
/// two steps of the provisioning, and any other id is an error.
pub open spec fn reply_model(
    s: StateView,
    contract: Seq<char>,
    id: u64,
    outcome: Result<Option<Seq<u8>>, Seq<char>>,
) -> Outcome {
    if id == CREATE_DENOM_REPLY_ID {
        create_denom_replied_model(s, contract, create_denom_reply(outcome))
    } else if id == BEFORE_SEND_HOOK_REPLY_ID {
        before_send_hook_replied_model(s, outcome is Ok)
    } else {
        Err(ContractErrorView::UnknownReplyId { id })
    }
}

/// Takes the chain's answer to a message that the issuer sent.
pub fn reply(state: &mut State, env: Env, msg: Reply) -> (res: Result<Response, ContractError>)
    ensures
        refines(
            old(state)@,
            final(state)@,
            res,
            reply_model(old(state)@, env.contract_address@, msg.id, outcome_view(msg.result)),
        ),
        msg.id == CREATE_DENOM_REPLY_ID && !(outcome_view(msg.result) matches Ok(Some(_)))
            ==> res is Err,
        final(state)@.wf(),
{
    let res = if msg.id == CREATE_DENOM_REPLY_ID {
        let created = parse_create_denom_reply(&msg.result);
        create_denom_replied(state, env, created)
    } else if msg.id == BEFORE_SEND_HOOK_REPLY_ID {
        before_send_hook_replied(state, msg.result.is_ok())
    } else {
        Err(ContractError::UnknownReplyId { id: msg.id })
    };
    proof {
        use_type_invariant(&*state);
    }
    res
}

} // verus!
