use cosmwasm_std::StdError;
use dao_contracts::chain::{
    Attribute, Coin, Env, MessageInfo, Reply, ReplyOn, SubMsgResponse,
};
use dao_contracts::cw_tokenfactory_issuer::contract::{
    execute, instantiate, migrate, query, reply, sudo,
};
use dao_contracts::cw_tokenfactory_issuer::error::AllowanceKind;
use dao_contracts::cw_tokenfactory_issuer::hooks::beforesend_hook;
use dao_contracts::cw_tokenfactory_issuer::msg::{
    AllowanceInfo, ExecuteMsg, InstantiateMsg, MigrateMsg, QueryMsg, QueryResponse, StatusInfo,
    SudoMsg,
};
use dao_contracts::cw_tokenfactory_issuer::queries::{
    query_blacklistees, query_burn_allowance, query_burn_allowances, query_denom,
    query_is_blacklisted, query_is_frozen, query_mint_allowance, query_mint_allowances,
    query_owner, DEFAULT_LIMIT, MAX_LIMIT,
};
use dao_contracts::cw_tokenfactory_issuer::response::{
    DenomUnit, Metadata, Response, SubMsg, TokenFactoryMsg,
};
use dao_contracts::cw_tokenfactory_issuer::state::{Provisioning, Role, Status};
use dao_contracts::cw_tokenfactory_issuer::{ContractError, State};
use osmosis_std::types::osmosis::tokenfactory::v1beta1::MsgCreateDenomResponse;

const ISSUER: &str = "contract";
const DENOM: &str = "factory/contract/abc";

fn chain_env() -> Env {
    Env { contract_address: ISSUER.to_string(), block_height: 7 }
}

fn from(sender: &str) -> MessageInfo {
    MessageInfo { sender: sender.to_string() }
}

fn attr(key: &str, value: &str) -> Attribute {
    Attribute { key: key.to_string(), value: value.to_string() }
}

fn created(denom: &str) -> Reply {
    let data = MsgCreateDenomResponse { new_token_denom: denom.to_string() }.to_proto_bytes();
    Reply { id: 1, result: Ok(SubMsgResponse { data: Some(data) }) }
}

fn guard_registered() -> Reply {
    Reply { id: 2, result: Ok(SubMsgResponse { data: None }) }
}

fn guard_refused() -> Reply {
    Reply { id: 2, result: Err("hook refused".to_string()) }
}

/// An issuer that `owner` owns, with its denom and an active guard.
fn issuer(owner: &str) -> State {
    let msg = InstantiateMsg::NewToken { subdenom: "abc".to_string() };
    let (mut state, _) = instantiate(chain_env(), from(owner), msg).unwrap();
    reply(&mut state, chain_env(), created(DENOM)).unwrap();
    reply(&mut state, chain_env(), guard_registered()).unwrap();
    state
}

fn run(state: &mut State, sender: &str, msg: ExecuteMsg) -> Result<Response, ContractError> {
    execute(state, chain_env(), from(sender), msg)
}

fn set_minter(state: &mut State, address: &str, allowance: u128) {
    let msg = ExecuteMsg::SetMinterAllowance { address: address.to_string(), allowance };
    run(state, "owner", msg).unwrap();
}

fn set_burner(state: &mut State, address: &str, allowance: u128) {
    let msg = ExecuteMsg::SetBurnerAllowance { address: address.to_string(), allowance };
    run(state, "owner", msg).unwrap();
}

fn mint_allowance(state: &State, address: &str) -> u128 {
    query_mint_allowance(state, address.to_string()).allowance
}

#[test]
fn instantiate_new_token_asks_for_the_denom() {
    let msg = InstantiateMsg::NewToken { subdenom: "abc".to_string() };
    let (state, response) = instantiate(chain_env(), from("A"), msg).unwrap();

    assert_eq!(state.owner(), "A");
    assert_eq!(state.denom(), &None);
    assert!(!state.is_frozen());
    assert_eq!(state.provisioning(), Provisioning::AssetPending);
    assert!(!state.guard_active());
    assert_eq!(state.contract(), "crates.io:cw-tokenfactory-issuer");
    assert_eq!(
        response.attributes,
        vec![attr("action", "instantiate"), attr("owner", "A"), attr("subdenom", "abc")]
    );
    assert_eq!(
        response.messages,
        vec![SubMsg {
            id: 1,
            msg: TokenFactoryMsg::CreateDenom {
                sender: ISSUER.to_string(),
                subdenom: "abc".to_string()
            },
            reply_on: ReplyOn::Success,
        }]
    );
}

#[test]
fn instantiate_existing_token_has_no_guard() {
    let msg = InstantiateMsg::ExistingToken { denom: "uosmo".to_string() };
    let (mut state, response) = instantiate(chain_env(), from("A"), msg).unwrap();

    assert_eq!(state.denom(), &Some("uosmo".to_string()));
    assert_eq!(state.provisioning(), Provisioning::GuardInactive);
    assert!(!state.guard_active());
    assert!(response.messages.is_empty());
    assert_eq!(
        response.attributes,
        vec![attr("action", "instantiate"), attr("owner", "A"), attr("denom", "uosmo")]
    );

    // what relies on the guard is refused
    let grant = ExecuteMsg::SetBlacklister { address: "B".to_string(), status: true };
    assert_eq!(run(&mut state, "A", grant).unwrap_err(), ContractError::GuardInactive {});
    // what does not rely on it works
    let grant = ExecuteMsg::SetMinterAllowance { address: "B".to_string(), allowance: 5 };
    run(&mut state, "A", grant).unwrap();
    assert_eq!(mint_allowance(&state, "B"), 5);
}

#[test]
fn new_token_provisioning_ends_with_inactive_guard_when_registration_fails() {
    let msg = InstantiateMsg::NewToken { subdenom: "abc".to_string() };
    let (mut state, _) = instantiate(chain_env(), from("A"), msg).unwrap();

    let response = reply(&mut state, chain_env(), created("factory/contract/abc")).unwrap();
    assert_eq!(state.denom(), &Some("factory/contract/abc".to_string()));
    assert_eq!(state.provisioning(), Provisioning::GuardPending);
    assert_eq!(response.attributes, vec![attr("denom", "factory/contract/abc")]);
    assert_eq!(
        response.messages,
        vec![SubMsg {
            id: 2,
            msg: TokenFactoryMsg::SetBeforeSendHook {
                sender: ISSUER.to_string(),
                denom: "factory/contract/abc".to_string(),
                cosmwasm_address: ISSUER.to_string(),
            },
            reply_on: ReplyOn::Always,
        }]
    );

    let response = reply(&mut state, chain_env(), guard_refused()).unwrap();
    assert_eq!(response.attributes, vec![attr("extra_features", "disabled")]);
    assert!(response.messages.is_empty());
    assert!(!state.guard_active());
    assert_eq!(state.provisioning(), Provisioning::GuardInactive);

    let grant = ExecuteMsg::SetFreezer { address: "B".to_string(), status: true };
    assert_eq!(run(&mut state, "A", grant).unwrap_err(), ContractError::GuardInactive {});
    assert!(!state.has_role(Role::Freezer, "B"));
}

#[test]
fn guard_registration_success_switches_the_guard_on() {
    let msg = InstantiateMsg::NewToken { subdenom: "abc".to_string() };
    let (mut state, _) = instantiate(chain_env(), from("A"), msg).unwrap();
    reply(&mut state, chain_env(), created(DENOM)).unwrap();

    let response = reply(&mut state, chain_env(), guard_registered()).unwrap();

    assert_eq!(response.attributes, vec![attr("extra_features", "enabled")]);
    assert!(state.guard_active());
    assert_eq!(state.provisioning(), Provisioning::GuardActive);
    let grant = ExecuteMsg::SetFreezer { address: "B".to_string(), status: true };
    run(&mut state, "A", grant).unwrap();
    assert!(state.has_role(Role::Freezer, "B"));
}

#[test]
fn reply_to_a_failed_creation_is_an_error() {
    let msg = InstantiateMsg::NewToken { subdenom: "abc".to_string() };
    let (mut state, _) = instantiate(chain_env(), from("A"), msg).unwrap();

    let failed = Reply { id: 1, result: Err("no funds".to_string()) };
    let err = reply(&mut state, chain_env(), failed).unwrap_err();
    assert_eq!(err, ContractError::Std(StdError::generic_err("no funds")));

    let empty = Reply { id: 1, result: Ok(SubMsgResponse { data: None }) };
    assert!(matches!(
        reply(&mut state, chain_env(), empty).unwrap_err(),
        ContractError::Std(StdError::NotFound { .. })
    ));

    let garbled = Reply { id: 1, result: Ok(SubMsgResponse { data: Some(vec![0xff, 0xff]) }) };
    assert!(matches!(
        reply(&mut state, chain_env(), garbled).unwrap_err(),
        ContractError::Std(StdError::ParseErr { .. })
    ));

    assert_eq!(state.denom(), &None);
    assert_eq!(state.provisioning(), Provisioning::AssetPending);
}

#[test]
fn second_answer_to_the_creation_is_refused_and_the_denom_stays() {
    let mut state = issuer("owner");

    let err = reply(&mut state, chain_env(), created("factory/contract/other")).unwrap_err();

    assert_eq!(err, ContractError::UnknownReplyId { id: 1 });
    assert_eq!(state.denom(), &Some(DENOM.to_string()));
    assert!(state.guard_active());

    let msg = InstantiateMsg::ExistingToken { denom: "uosmo".to_string() };
    let (mut state, _) = instantiate(chain_env(), from("owner"), msg).unwrap();
    let err = reply(&mut state, chain_env(), created("factory/contract/other")).unwrap_err();
    assert_eq!(err, ContractError::UnknownReplyId { id: 1 });
    assert_eq!(state.denom(), &Some("uosmo".to_string()));
}

#[test]
fn denom_is_recorded_once() {
    let mut state = State::new("owner".to_string());
    state.set_denom("first".to_string());
    state.set_denom("second".to_string());
    assert_eq!(state.denom(), &Some("first".to_string()));
}

#[test]
fn reply_with_unknown_id_is_an_error() {
    let mut state = issuer("owner");
    let stray = Reply { id: 3, result: Ok(SubMsgResponse { data: None }) };

    assert_eq!(
        reply(&mut state, chain_env(), stray).unwrap_err(),
        ContractError::UnknownReplyId { id: 3 }
    );
    assert!(state.guard_active());
    assert_eq!(state.denom(), &Some(DENOM.to_string()));
}

#[test]
fn mint_within_allowance_takes_the_amount_off() {
    let mut state = issuer("owner");
    set_minter(&mut state, "minter", 100);

    let msg = ExecuteMsg::Mint { to_address: "receiver".to_string(), amount: 30 };
    let response = run(&mut state, "minter", msg).unwrap();

    assert_eq!(mint_allowance(&state, "minter"), 70);
    assert_eq!(response.attributes, vec![attr("action", "mint")]);
    assert_eq!(
        response.messages,
        vec![SubMsg {
            id: 0,
            msg: TokenFactoryMsg::MintTokens {
                denom: DENOM.to_string(),
                amount: 30,
                mint_to_address: "receiver".to_string(),
            },
            reply_on: ReplyOn::Never,
        }]
    );
}

#[test]
fn mint_of_the_whole_allowance_removes_the_entry() {
    let mut state = issuer("owner");
    set_minter(&mut state, "minter", 100);

    let msg = ExecuteMsg::Mint { to_address: "receiver".to_string(), amount: 100 };
    run(&mut state, "minter", msg).unwrap();

    assert_eq!(mint_allowance(&state, "minter"), 0);
    assert!(query_mint_allowances(&state, None, None).allowances.is_empty());
}

#[test]
fn mint_of_nothing_goes_through() {
    let mut state = issuer("owner");

    let msg = ExecuteMsg::Mint { to_address: "receiver".to_string(), amount: 0 };
    run(&mut state, "anybody", msg).unwrap();

    assert_eq!(mint_allowance(&state, "anybody"), 0);
}

#[test]
fn mint_over_allowance_is_refused_and_changes_nothing() {
    let mut state = issuer("owner");
    set_minter(&mut state, "minter", 100);

    let msg = ExecuteMsg::Mint { to_address: "receiver".to_string(), amount: 101 };
    let err = run(&mut state, "minter", msg).unwrap_err();

    assert_eq!(
        err,
        ContractError::InsufficientAllowance {
            kind: AllowanceKind::Mint,
            holder: "minter".to_string(),
            requested: 101,
            available: 100,
        }
    );
    assert_eq!(mint_allowance(&state, "minter"), 100);
}

#[test]
fn mint_without_allowance_is_refused() {
    let mut state = issuer("owner");

    let msg = ExecuteMsg::Mint { to_address: "receiver".to_string(), amount: 1 };
    let err = run(&mut state, "owner", msg).unwrap_err();

    assert_eq!(
        err,
        ContractError::InsufficientAllowance {
            kind: AllowanceKind::Mint,
            holder: "owner".to_string(),
            requested: 1,
            available: 0,
        }
    );
}

#[test]
fn mint_before_the_denom_is_known_is_refused_and_keeps_the_allowance() {
    let msg = InstantiateMsg::NewToken { subdenom: "abc".to_string() };
    let (mut state, _) = instantiate(chain_env(), from("owner"), msg).unwrap();
    set_minter(&mut state, "minter", 100);

    let msg = ExecuteMsg::Mint { to_address: "receiver".to_string(), amount: 30 };
    let err = run(&mut state, "minter", msg).unwrap_err();

    assert_eq!(err, ContractError::Std(StdError::not_found("denom")));
    assert_eq!(mint_allowance(&state, "minter"), 100);
}

#[test]
fn burn_within_allowance_takes_the_amount_off() {
    let mut state = issuer("owner");
    set_burner(&mut state, "burner", 50);

    let msg = ExecuteMsg::Burn { from_address: "holder".to_string(), amount: 20 };
    let response = run(&mut state, "burner", msg).unwrap();

    assert_eq!(query_burn_allowance(&state, "burner".to_string()).allowance, 30);
    assert_eq!(response.attributes, vec![attr("action", "burn")]);
    assert_eq!(
        response.messages,
        vec![SubMsg {
            id: 0,
            msg: TokenFactoryMsg::BurnTokens {
                denom: DENOM.to_string(),
                amount: 20,
                burn_from_address: "holder".to_string(),
            },
            reply_on: ReplyOn::Never,
        }]
    );
}

#[test]
fn burn_over_allowance_is_refused_and_changes_nothing() {
    let mut state = issuer("owner");
    set_burner(&mut state, "burner", 50);
    set_minter(&mut state, "burner", 500);

    let msg = ExecuteMsg::Burn { from_address: "holder".to_string(), amount: 51 };
    let err = run(&mut state, "burner", msg).unwrap_err();

    assert_eq!(
        err,
        ContractError::InsufficientAllowance {
            kind: AllowanceKind::Burn,
            holder: "burner".to_string(),
            requested: 51,
            available: 50,
        }
    );
    assert_eq!(query_burn_allowance(&state, "burner".to_string()).allowance, 50);
}

#[test]
fn set_allowance_overwrites() {
    let mut state = issuer("owner");
    set_minter(&mut state, "minter", 100);
    set_minter(&mut state, "minter", 40);

    assert_eq!(mint_allowance(&state, "minter"), 40);
    assert_eq!(query_burn_allowance(&state, "minter".to_string()).allowance, 0);
}

#[test]
fn set_allowance_to_zero_removes_it_from_the_listing() {
    let mut state = issuer("owner");
    set_minter(&mut state, "a", 1);
    set_minter(&mut state, "b", 2);
    set_burner(&mut state, "b", 3);
    assert_eq!(
        query_mint_allowances(&state, None, None).allowances,
        vec![
            AllowanceInfo { address: "a".to_string(), allowance: 1 },
            AllowanceInfo { address: "b".to_string(), allowance: 2 },
        ]
    );

    set_minter(&mut state, "a", 0);
    set_burner(&mut state, "b", 0);

    assert_eq!(
        query_mint_allowances(&state, None, None).allowances,
        vec![AllowanceInfo { address: "b".to_string(), allowance: 2 }]
    );
    assert_eq!(mint_allowance(&state, "a"), 0);
    assert!(query_burn_allowances(&state, None, Some(30)).allowances.is_empty());
    assert_eq!(query_burn_allowance(&state, "b".to_string()).allowance, 0);
}

#[test]
fn set_allowance_by_non_owner_is_refused() {
    let mut state = issuer("owner");

    let msg = ExecuteMsg::SetMinterAllowance { address: "minter".to_string(), allowance: 10 };
    assert_eq!(run(&mut state, "minter", msg).unwrap_err(), ContractError::Unauthorized {});
    let msg = ExecuteMsg::SetBurnerAllowance { address: "minter".to_string(), allowance: 10 };
    assert_eq!(run(&mut state, "minter", msg).unwrap_err(), ContractError::Unauthorized {});
    assert_eq!(mint_allowance(&state, "minter"), 0);
}

#[test]
fn blacklist_by_blacklister_and_guard_decision() {
    let mut state = issuer("owner");
    let grant = ExecuteMsg::SetBlacklister { address: "officer".to_string(), status: true };
    run(&mut state, "owner", grant).unwrap();

    let msg = ExecuteMsg::Blacklist { address: "mallory".to_string(), status: true };
    let response = run(&mut state, "officer", msg).unwrap();
    assert_eq!(response.attributes, vec![attr("action", "blacklist")]);
    assert!(query_is_blacklisted(&state, "mallory".to_string()).status);
    assert_eq!(
        query_blacklistees(&state, None, None).blacklistees,
        vec![StatusInfo { address: "mallory".to_string(), status: true }]
    );

    let coin = Coin { denom: DENOM.to_string(), amount: 1 };
    let ok = beforesend_hook(&state, "alice".to_string(), "bob".to_string(), coin.clone());
    assert_eq!(ok.unwrap().attributes, vec![attr("action", "before_send")]);
    let err = beforesend_hook(&state, "mallory".to_string(), "bob".to_string(), coin.clone());
    assert_eq!(err.unwrap_err(), ContractError::Blacklisted { address: "mallory".to_string() });
    let err = beforesend_hook(&state, "alice".to_string(), "mallory".to_string(), coin.clone());
    assert_eq!(err.unwrap_err(), ContractError::Blacklisted { address: "mallory".to_string() });

    // taking the address off removes the entry
    let msg = ExecuteMsg::Blacklist { address: "mallory".to_string(), status: false };
    run(&mut state, "officer", msg).unwrap();
    assert!(!query_is_blacklisted(&state, "mallory".to_string()).status);
    assert!(query_blacklistees(&state, None, None).blacklistees.is_empty());
    let ok = beforesend_hook(&state, "mallory".to_string(), "bob".to_string(), coin);
    assert!(ok.is_ok());
}

#[test]
fn blacklist_by_owner_without_role_is_refused() {
    let mut state = issuer("owner");

    let msg = ExecuteMsg::Blacklist { address: "mallory".to_string(), status: true };
    assert_eq!(run(&mut state, "owner", msg).unwrap_err(), ContractError::Unauthorized {});
    let msg = ExecuteMsg::Whitelist { address: "alice".to_string(), status: true };
    assert_eq!(run(&mut state, "owner", msg).unwrap_err(), ContractError::Unauthorized {});
}

#[test]
fn whitelist_has_no_say_in_the_guard() {
    let mut state = issuer("owner");
    let grant = ExecuteMsg::SetWhitelister { address: "clerk".to_string(), status: true };
    run(&mut state, "owner", grant).unwrap();
    let grant = ExecuteMsg::SetFreezer { address: "clerk".to_string(), status: true };
    run(&mut state, "owner", grant).unwrap();
    let msg = ExecuteMsg::Whitelist { address: "alice".to_string(), status: true };
    run(&mut state, "clerk", msg).unwrap();
    assert!(state.has_status(Status::Whitelisted, "alice"));
    run(&mut state, "clerk", ExecuteMsg::Freeze { status: true }).unwrap();

    let coin = Coin { denom: DENOM.to_string(), amount: 1 };
    let err = beforesend_hook(&state, "alice".to_string(), "alice".to_string(), coin);
    assert_eq!(err.unwrap_err(), ContractError::Frozen {});
}

#[test]
fn frozen_refuses_every_transfer_whatever_the_blacklist() {
    let mut state = issuer("owner");
    let grant = ExecuteMsg::SetFreezer { address: "officer".to_string(), status: true };
    run(&mut state, "owner", grant).unwrap();
    let grant = ExecuteMsg::SetBlacklister { address: "officer".to_string(), status: true };
    run(&mut state, "owner", grant).unwrap();
    let msg = ExecuteMsg::Blacklist { address: "mallory".to_string(), status: true };
    run(&mut state, "officer", msg).unwrap();
    run(&mut state, "officer", ExecuteMsg::Freeze { status: true }).unwrap();
    assert!(query_is_frozen(&state).is_frozen);

    for (from, to) in [("alice", "bob"), ("mallory", "bob"), ("alice", "mallory")] {
        let msg = SudoMsg::BlockBeforeSend {
            from: from.to_string(),
            to: to.to_string(),
            amount: Coin { denom: "other".to_string(), amount: 0 },
        };
        assert_eq!(sudo(&state, chain_env(), msg).unwrap_err(), ContractError::Frozen {});
    }

    run(&mut state, "officer", ExecuteMsg::Freeze { status: false }).unwrap();
    let msg = SudoMsg::BlockBeforeSend {
        from: "alice".to_string(),
        to: "bob".to_string(),
        amount: Coin { denom: DENOM.to_string(), amount: 5 },
    };
    assert!(sudo(&state, chain_env(), msg).is_ok());
}

#[test]
fn freeze_without_guard_is_refused_before_the_role_is_looked_at() {
    let msg = InstantiateMsg::ExistingToken { denom: "uosmo".to_string() };
    let (mut state, _) = instantiate(chain_env(), from("owner"), msg).unwrap();

    let err = run(&mut state, "anybody", ExecuteMsg::Freeze { status: true }).unwrap_err();

    assert_eq!(err, ContractError::GuardInactive {});
    assert!(!state.is_frozen());
}

#[test]
fn role_grant_by_non_owner_without_guard_is_unauthorized() {
    let msg = InstantiateMsg::ExistingToken { denom: "uosmo".to_string() };
    let (mut state, _) = instantiate(chain_env(), from("owner"), msg).unwrap();

    let grant = ExecuteMsg::SetFreezer { address: "B".to_string(), status: true };
    assert_eq!(run(&mut state, "B", grant).unwrap_err(), ContractError::Unauthorized {});
}

#[test]
fn ownership_transfer_holds_at_once() {
    let mut state = issuer("old");
    let msg = ExecuteMsg::ChangeContractOwner { new_owner: "new".to_string() };
    let response = run(&mut state, "old", msg).unwrap();
    assert_eq!(response.attributes, vec![attr("action", "change_contract_owner")]);
    assert_eq!(query_owner(&state).address, "new");

    let privileged = vec![
        ExecuteMsg::SetMinterAllowance { address: "old".to_string(), allowance: 1 },
        ExecuteMsg::SetBurnerAllowance { address: "old".to_string(), allowance: 1 },
        ExecuteMsg::SetBlacklister { address: "old".to_string(), status: true },
        ExecuteMsg::SetWhitelister { address: "old".to_string(), status: true },
        ExecuteMsg::SetFreezer { address: "old".to_string(), status: true },
        ExecuteMsg::ChangeContractOwner { new_owner: "old".to_string() },
        ExecuteMsg::ChangeTokenFactoryAdmin { new_admin: "old".to_string() },
        ExecuteMsg::ForceTransfer {
            amount: 1,
            from_address: "alice".to_string(),
            to_address: "old".to_string(),
        },
        ExecuteMsg::SetBeforeSendHook {},
    ];
    for msg in privileged {
        assert_eq!(run(&mut state, "old", msg).unwrap_err(), ContractError::Unauthorized {});
    }
    let grant = ExecuteMsg::SetMinterAllowance { address: "old".to_string(), allowance: 1 };
    run(&mut state, "new", grant).unwrap();
    assert_eq!(mint_allowance(&state, "old"), 1);
}

#[test]
fn owner_messages_go_to_the_token_factory() {
    let mut state = issuer("owner");

    let msg = ExecuteMsg::ForceTransfer {
        amount: 9,
        from_address: "alice".to_string(),
        to_address: "bob".to_string(),
    };
    let response = run(&mut state, "owner", msg).unwrap();
    assert_eq!(response.attributes, vec![attr("action", "force_transfer")]);
    assert_eq!(
        response.messages,
        vec![SubMsg {
            id: 0,
            msg: TokenFactoryMsg::ForceTransfer {
                denom: DENOM.to_string(),
                amount: 9,
                from_address: "alice".to_string(),
                to_address: "bob".to_string(),
            },
            reply_on: ReplyOn::Never,
        }]
    );

    let msg = ExecuteMsg::ChangeTokenFactoryAdmin { new_admin: "dao".to_string() };
    let response = run(&mut state, "owner", msg).unwrap();
    assert_eq!(
        response.messages,
        vec![SubMsg {
            id: 0,
            msg: TokenFactoryMsg::ChangeAdmin {
                denom: DENOM.to_string(),
                new_admin_address: "dao".to_string(),
            },
            reply_on: ReplyOn::Never,
        }]
    );

    let metadata = Metadata {
        description: Some("a token".to_string()),
        denom_units: vec![DenomUnit {
            denom: DENOM.to_string(),
            exponent: 0,
            aliases: vec!["abc".to_string()],
        }],
        base: Some(DENOM.to_string()),
        display: Some("abc".to_string()),
        name: Some("ABC".to_string()),
        symbol: Some("ABC".to_string()),
    };
    let msg = ExecuteMsg::SetDenomMetadata { metadata: metadata.clone() };
    let response = run(&mut state, "owner", msg).unwrap();
    assert_eq!(
        response.messages,
        vec![SubMsg {
            id: 0,
            msg: TokenFactoryMsg::SetMetadata { denom: DENOM.to_string(), metadata },
            reply_on: ReplyOn::Never,
        }]
    );

    let response = run(&mut state, "owner", ExecuteMsg::SetBeforeSendHook {}).unwrap();
    assert_eq!(
        response.messages,
        vec![SubMsg {
            id: 2,
            msg: TokenFactoryMsg::SetBeforeSendHook {
                sender: ISSUER.to_string(),
                denom: DENOM.to_string(),
                cosmwasm_address: ISSUER.to_string(),
            },
            reply_on: ReplyOn::Always,
        }]
    );
    // the store is as it was
    assert!(state.guard_active());
    assert_eq!(query_owner(&state).address, "owner");
}

#[test]
fn guard_can_be_lost_and_won_again() {
    let mut state = issuer("owner");
    run(&mut state, "owner", ExecuteMsg::SetBeforeSendHook {}).unwrap();
    reply(&mut state, chain_env(), guard_refused()).unwrap();
    assert!(!state.guard_active());

    run(&mut state, "owner", ExecuteMsg::SetBeforeSendHook {}).unwrap();
    reply(&mut state, chain_env(), guard_registered()).unwrap();
    assert!(state.guard_active());
}

#[test]
fn queries_answer_defaults_for_unknown_addresses() {
    let state = issuer("owner");
    let nobody = "nobody".to_string();

    for msg in [
        QueryMsg::MintAllowance { address: nobody.clone() },
        QueryMsg::BurnAllowance { address: nobody.clone() },
    ] {
        match query(&state, chain_env(), msg).unwrap() {
            QueryResponse::Allowance(r) => assert_eq!(r.allowance, 0),
            other => panic!("unexpected answer: {:?}", other),
        }
    }
    for msg in [
        QueryMsg::IsBlacklisted { address: nobody.clone() },
        QueryMsg::IsBlacklister { address: nobody.clone() },
        QueryMsg::IsWhitelisted { address: nobody.clone() },
        QueryMsg::IsWhitelister { address: nobody.clone() },
        QueryMsg::IsFreezer { address: nobody.clone() },
    ] {
        match query(&state, chain_env(), msg).unwrap() {
            QueryResponse::Status(r) => assert!(!r.status),
            other => panic!("unexpected answer: {:?}", other),
        }
    }
}

#[test]
fn query_denom_and_owner() {
    let state = issuer("owner");
    assert_eq!(query_denom(&state).unwrap().denom, DENOM);
    match query(&state, chain_env(), QueryMsg::Owner {}).unwrap() {
        QueryResponse::Owner(r) => assert_eq!(r.address, "owner"),
        other => panic!("unexpected answer: {:?}", other),
    }

    let msg = InstantiateMsg::NewToken { subdenom: "abc".to_string() };
    let (pending, _) = instantiate(chain_env(), from("owner"), msg).unwrap();
    assert_eq!(
        query(&pending, chain_env(), QueryMsg::Denom {}).unwrap_err(),
        StdError::not_found("denom")
    );
}

#[test]
fn listing_pages_through_the_allowances() {
    let mut state = issuer("owner");
    let mut expected = Vec::new();
    for i in 0..45u128 {
        let address = format!("addr{:02}", i);
        // written in an order that is not the order of the addresses
        set_minter(&mut state, &format!("addr{:02}", (i * 7) % 45), (i * 7) % 45 + 1);
        expected.push(AllowanceInfo { address, allowance: i + 1 });
    }
    assert_eq!(DEFAULT_LIMIT, 10);
    assert_eq!(MAX_LIMIT, 30);

    assert_eq!(query_mint_allowances(&state, None, None).allowances, expected[..10]);
    assert_eq!(query_mint_allowances(&state, None, Some(0)).allowances, vec![]);
    assert_eq!(query_mint_allowances(&state, None, Some(30)).allowances, expected[..30]);
    assert_eq!(query_mint_allowances(&state, None, Some(31)).allowances, expected[..30]);
    assert_eq!(query_mint_allowances(&state, None, Some(u32::MAX)).allowances, expected[..30]);
    // the cursor itself and everything up to it stays out
    let after = Some("addr09".to_string());
    assert_eq!(query_mint_allowances(&state, after, Some(3)).allowances, expected[10..13]);
    // a cursor that is no entry
    let after = Some("addr09x".to_string());
    assert_eq!(query_mint_allowances(&state, after, Some(3)).allowances, expected[10..13]);
    let after = Some("addr40".to_string());
    assert_eq!(query_mint_allowances(&state, after, None).allowances, expected[41..]);
    let after = Some("addr44".to_string());
    assert_eq!(query_mint_allowances(&state, after, None).allowances, vec![]);
    let after = Some("zzz".to_string());
    assert_eq!(query_mint_allowances(&state, after, None).allowances, vec![]);
}

#[test]
fn listing_of_fewer_than_the_default_returns_all() {
    let mut state = issuer("owner");
    for address in ["c", "a", "b"] {
        let msg = ExecuteMsg::SetWhitelister { address: address.to_string(), status: true };
        run(&mut state, "owner", msg).unwrap();
    }

    let msg = QueryMsg::WhitelisterAllowances { start_after: None, limit: None };
    match query(&state, chain_env(), msg).unwrap() {
        QueryResponse::WhitelisterAllowances(r) => assert_eq!(
            r.whitelisters,
            vec![
                StatusInfo { address: "a".to_string(), status: true },
                StatusInfo { address: "b".to_string(), status: true },
                StatusInfo { address: "c".to_string(), status: true },
            ]
        ),
        other => panic!("unexpected answer: {:?}", other),
    }
}

#[test]
fn migrate_records_the_version() {
    let mut state = issuer("owner");
    state.set_contract_version("crates.io:cw-tokenfactory-issuer", "0.0.1");
    set_minter(&mut state, "minter", 3);

    let response = migrate(&mut state, chain_env(), MigrateMsg {}).unwrap();

    assert_eq!(response.attributes, vec![attr("action", "migrate")]);
    assert!(response.messages.is_empty());
    assert_eq!(state.version(), "0.1.0");
    assert_eq!(state.contract(), "crates.io:cw-tokenfactory-issuer");
    assert_eq!(mint_allowance(&state, "minter"), 3);
    assert_eq!(state.denom(), &Some(DENOM.to_string()));
}

#[test]
fn store_writers_keep_absence_for_zero_and_false() {
    let mut state = State::new("owner".to_string());
    state.set_allowance(AllowanceKind::Burn, "a".to_string(), 4);
    state.set_allowance(AllowanceKind::Burn, "a".to_string(), 0);
    state.set_role(Role::Freezer, "a".to_string(), true);
    state.set_role(Role::Freezer, "a".to_string(), false);
    state.set_status(Status::Whitelisted, "a".to_string(), true);
    state.set_status(Status::Whitelisted, "b".to_string(), false);

    assert!(state.list_allowances(AllowanceKind::Burn, &None, usize::MAX).is_empty());
    assert!(state.list_roles(Role::Freezer, &None, usize::MAX).is_empty());
    assert_eq!(
        state.list_statuses(Status::Whitelisted, &None, usize::MAX),
        vec![("a".to_string(), true)]
    );
    assert_eq!(state.allowance(AllowanceKind::Burn, "a"), 0);
    assert!(!state.has_role(Role::Freezer, "a"));
    assert!(!state.has_status(Status::Whitelisted, "b"));
}
