use cosmwasm_std::StdError;
use dao_contracts::chain::{Attribute, Env, MessageInfo, Reply, ReplyOn, SubMsgResponse};
use dao_contracts::dao_voting_cw4::contract::{
    check_members, execute, group_instantiated, instantiate, migrate, query, query_info,
    query_total_power_at_height, query_voting_power_at_height, reply, sort_members, sum_weights,
};
use dao_contracts::dao_voting_cw4::msg::{
    ContractVersion, ExecuteMsg, GroupContract, GroupExecuteMsg, GroupInstantiateMsg,
    GroupQueryMsg, InfoResponse, InstantiateMsg, Member, MemberResponse, MigrateMsg, QueryMsg,
    QueryPlan, Response, SubMsg, TotalWeightResponse, WasmMsg,
};
use dao_contracts::dao_voting_cw4::state::State;
use dao_contracts::dao_voting_cw4::ContractError;
use dao_contracts::dao_voting_native_staked::msg as staked;
use dao_contracts::dao_voting_token_factory_staked::hooks::{
    stake_hook_msgs, unstake_hook_msgs, HookMsg, StakeChangedExecuteMsg, StakeChangedHookMsg,
};

const MODULE: &str = "voting_module";

fn chain_env() -> Env {
    Env { contract_address: MODULE.to_string(), block_height: 100 }
}

fn dao() -> MessageInfo {
    MessageInfo { sender: "dao".to_string() }
}

fn member(addr: &str, weight: u64) -> Member {
    Member { addr: addr.to_string(), weight }
}

fn new_group(initial_members: Vec<Member>) -> InstantiateMsg {
    InstantiateMsg { group_contract: GroupContract::New { cw4_group_code_id: 7, initial_members } }
}

fn attr(key: &str, value: &str) -> Attribute {
    Attribute { key: key.to_string(), value: value.to_string() }
}

/// The bytes of the chain's answer to a set-up: the address as field one.
fn instantiated(address: &str) -> Reply {
    let mut data = vec![0x0a, address.len() as u8];
    data.extend_from_slice(address.as_bytes());
    Reply { id: 0, result: Ok(SubMsgResponse { data: Some(data) }) }
}

fn pending_module() -> State {
    instantiate(chain_env(), dao(), new_group(vec![member("a", 1)])).unwrap().0
}

#[test]
fn instantiate_new_group_sends_the_members_in_order() {
    let msg = new_group(vec![member("carol", 3), member("alice", 0), member("bob", 2)]);

    let (state, response) = instantiate(chain_env(), dao(), msg).unwrap();

    assert_eq!(
        state,
        State {
            contract: "crates.io:dao-voting-cw4".to_string(),
            version: "0.1.0".to_string(),
            dao: "dao".to_string(),
            group_contract: None,
        }
    );
    assert_eq!(
        response,
        Response {
            attributes: vec![attr("action", "instantiate")],
            messages: vec![SubMsg {
                id: 0,
                msg: WasmMsg::Instantiate {
                    admin: Some("dao".to_string()),
                    code_id: 7,
                    msg: GroupInstantiateMsg {
                        admin: Some(MODULE.to_string()),
                        members: vec![member("alice", 0), member("bob", 2), member("carol", 3)],
                    },
                    label: MODULE.to_string(),
                },
                reply_on: ReplyOn::Success,
            }],
        }
    );
}

#[test]
fn instantiate_without_members_is_refused() {
    let err = instantiate(chain_env(), dao(), new_group(vec![])).unwrap_err();
    assert_eq!(err, ContractError::NoMembers {});
}

#[test]
fn instantiate_with_a_member_twice_is_refused() {
    let msg = new_group(vec![member("bob", 2), member("alice", 1), member("bob", 2)]);
    let err = instantiate(chain_env(), dao(), msg).unwrap_err();
    assert_eq!(err, ContractError::DuplicateMembers {});
}

#[test]
fn duplicates_are_found_before_the_weight_is_looked_at() {
    let msg = new_group(vec![member("bob", 0), member("bob", 0)]);
    let err = instantiate(chain_env(), dao(), msg).unwrap_err();
    assert_eq!(err, ContractError::DuplicateMembers {});
}

#[test]
fn an_address_with_two_weights_is_no_duplicate() {
    let msg = new_group(vec![member("bob", 1), member("alice", 5), member("bob", 2)]);

    let (_, response) = instantiate(chain_env(), dao(), msg).unwrap();

    match &response.messages[0].msg {
        WasmMsg::Instantiate { msg, .. } => {
            assert_eq!(msg.members, vec![member("alice", 5), member("bob", 1), member("bob", 2)])
        }
        other => panic!("unexpected message: {:?}", other),
    }
}

#[test]
fn equal_members_apart_are_no_neighbours() {
    // between the two equal entries stands one with the same address and
    // another weight, so no two neighbours are equal
    let members = vec![member("bob", 1), member("bob", 2), member("bob", 1)];
    assert_eq!(check_members(members.clone()).unwrap(), members);
}

#[test]
fn instantiate_without_weight_is_refused() {
    let msg = new_group(vec![member("alice", 0), member("bob", 0)]);
    let err = instantiate(chain_env(), dao(), msg).unwrap_err();
    assert_eq!(err, ContractError::ZeroTotalWeight {});
}

#[test]
fn instantiate_existing_group() {
    let msg = InstantiateMsg {
        group_contract: GroupContract::Existing { address: "group".to_string() },
    };

    let (state, response) = instantiate(chain_env(), dao(), msg).unwrap();

    assert_eq!(state.group_contract, Some("group".to_string()));
    assert_eq!(state.dao, "dao");
    assert!(response.messages.is_empty());
    assert_eq!(
        response.attributes,
        vec![attr("action", "instantiate"), attr("group_contract", "address")]
    );
}

#[test]
fn sort_is_stable_and_sums_do_not_overflow() {
    let members = vec![
        member("b", u64::MAX),
        member("a", u64::MAX),
        member("b", 1),
        member("a", 2),
        member("", 3),
    ];
    assert_eq!(
        sort_members(members.clone()),
        vec![
            member("", 3),
            member("a", u64::MAX),
            member("a", 2),
            member("b", u64::MAX),
            member("b", 1),
        ]
    );
    assert_eq!(sum_weights(&members), 2 * (u64::MAX as u128) + 6);
    assert_eq!(sum_weights(&vec![]), 0);
}

#[test]
fn execute_is_refused() {
    let mut state = pending_module();
    let before = state.clone();
    let err = execute(&mut state, chain_env(), dao(), ExecuteMsg {}).unwrap_err();
    assert_eq!(err, ContractError::NoExecute {});
    assert_eq!(state, before);
}

#[test]
fn reply_stores_the_group_and_hands_it_over() {
    let mut state = pending_module();

    let response = reply(&mut state, chain_env(), instantiated("group_contract_1")).unwrap();

    assert_eq!(state.group_contract, Some("group_contract_1".to_string()));
    assert_eq!(
        response,
        Response {
            attributes: vec![attr("group_contract_address", "group_contract_1")],
            messages: vec![SubMsg {
                id: 0,
                msg: WasmMsg::Execute {
                    contract_addr: "group_contract_1".to_string(),
                    msg: GroupExecuteMsg::UpdateAdmin { admin: Some("dao".to_string()) },
                },
                reply_on: ReplyOn::Never,
            }],
        }
    );
}

#[test]
fn second_reply_is_refused() {
    let mut state = pending_module();
    reply(&mut state, chain_env(), instantiated("group_contract_1")).unwrap();

    let err = reply(&mut state, chain_env(), instantiated("group_contract_2")).unwrap_err();

    assert_eq!(err, ContractError::DuplicateGroupContract {});
    assert_eq!(state.group_contract, Some("group_contract_1".to_string()));
}

#[test]
fn reply_that_cannot_be_read_is_refused() {
    let mut state = pending_module();

    let failed = Reply { id: 0, result: Err("out of gas".to_string()) };
    let err = reply(&mut state, chain_env(), failed).unwrap_err();
    assert_eq!(err, ContractError::GroupContractInstantiateError {});

    let empty = Reply { id: 0, result: Ok(SubMsgResponse { data: None }) };
    let err = reply(&mut state, chain_env(), empty).unwrap_err();
    assert_eq!(err, ContractError::GroupContractInstantiateError {});

    let garbled = Reply { id: 0, result: Ok(SubMsgResponse { data: Some(vec![0x0a, 9, 1]) }) };
    let err = reply(&mut state, chain_env(), garbled).unwrap_err();
    assert_eq!(err, ContractError::GroupContractInstantiateError {});

    assert_eq!(state.group_contract, None);
}

#[test]
fn reply_with_unknown_id_is_refused() {
    let mut state = pending_module();
    let mut stray = instantiated("group_contract_1");
    stray.id = 1;

    let err = reply(&mut state, chain_env(), stray).unwrap_err();

    assert_eq!(err, ContractError::UnknownReplyId { id: 1 });
    assert_eq!(state.group_contract, None);
}

#[test]
fn group_instantiated_takes_what_was_read() {
    let mut state = pending_module();
    let response = group_instantiated(&mut state, Ok("g".to_string())).unwrap();
    assert_eq!(response.attributes, vec![attr("group_contract_address", "g")]);
    assert_eq!(state.group_contract, Some("g".to_string()));
}

#[test]
fn queries_for_power_go_to_the_group() {
    let mut state = pending_module();
    let ask = QueryMsg::VotingPowerAtHeight { address: "alice".to_string(), height: Some(5) };
    assert_eq!(
        query(&state, chain_env(), ask.clone()).unwrap_err(),
        StdError::not_found("group_contract")
    );
    assert_eq!(
        query(&state, chain_env(), QueryMsg::GroupContract {}).unwrap_err(),
        StdError::not_found("group_contract")
    );
    reply(&mut state, chain_env(), instantiated("group")).unwrap();

    assert_eq!(
        query(&state, chain_env(), ask).unwrap(),
        QueryPlan::AskGroup {
            contract_addr: "group".to_string(),
            msg: GroupQueryMsg::Member { addr: "alice".to_string(), at_height: Some(5) },
        }
    );
    assert_eq!(
        query(&state, chain_env(), QueryMsg::TotalPowerAtHeight { height: None }).unwrap(),
        QueryPlan::AskGroup {
            contract_addr: "group".to_string(),
            msg: GroupQueryMsg::TotalWeight { at_height: None },
        }
    );
    assert_eq!(
        query(&state, chain_env(), QueryMsg::GroupContract {}).unwrap(),
        QueryPlan::GroupContract("group".to_string())
    );
    assert_eq!(
        query(&state, chain_env(), QueryMsg::Dao {}).unwrap(),
        QueryPlan::Dao("dao".to_string())
    );
    assert_eq!(
        query(&state, chain_env(), QueryMsg::Info {}).unwrap(),
        QueryPlan::Info(query_info(&state))
    );
}

#[test]
fn voting_power_is_the_weight() {
    let env = chain_env();

    let r = query_voting_power_at_height(&env, MemberResponse { weight: Some(9) }, Some(42));
    assert_eq!((r.power, r.height), (9, 42));
    let r = query_voting_power_at_height(&env, MemberResponse { weight: None }, None);
    assert_eq!((r.power, r.height), (0, 100));
    let r = query_voting_power_at_height(&env, MemberResponse { weight: Some(u64::MAX) }, None);
    assert_eq!(r.power, u64::MAX as u128);

    let r = query_total_power_at_height(&env, TotalWeightResponse { weight: 12 }, None);
    assert_eq!((r.power, r.height), (12, 100));
    let r = query_total_power_at_height(&env, TotalWeightResponse { weight: 0 }, Some(3));
    assert_eq!((r.power, r.height), (0, 3));
}

#[test]
fn info_and_migrate() {
    let mut state = pending_module();
    state.version = "0.0.9".to_string();
    assert_eq!(
        query_info(&state),
        InfoResponse {
            info: ContractVersion {
                contract: "crates.io:dao-voting-cw4".to_string(),
                version: "0.0.9".to_string(),
            }
        }
    );

    let response = migrate(&mut state, chain_env(), MigrateMsg {}).unwrap();

    assert_eq!(response, Response { messages: vec![], attributes: vec![] });
    assert_eq!(state.version, "0.1.0");
    assert_eq!(state.dao, "dao");
}

#[test]
fn hooks_get_one_message_each() {
    let hooks = vec!["hook_b".to_string(), "hook_a".to_string()];

    let staked = stake_hook_msgs(&hooks, "alice".to_string(), 15);
    assert_eq!(
        staked,
        vec![
            HookMsg {
                contract_addr: "hook_b".to_string(),
                msg: StakeChangedExecuteMsg::StakeChangeHook(StakeChangedHookMsg::Stake {
                    addr: "alice".to_string(),
                    amount: 15,
                }),
            },
            HookMsg {
                contract_addr: "hook_a".to_string(),
                msg: StakeChangedExecuteMsg::StakeChangeHook(StakeChangedHookMsg::Stake {
                    addr: "alice".to_string(),
                    amount: 15,
                }),
            },
        ]
    );

    let unstaked = unstake_hook_msgs(&hooks[..1].to_vec(), "bob".to_string(), 0);
    assert_eq!(
        unstaked,
        vec![HookMsg {
            contract_addr: "hook_b".to_string(),
            msg: StakeChangedExecuteMsg::StakeChangeHook(StakeChangedHookMsg::Unstake {
                addr: "bob".to_string(),
                amount: 0,
            }),
        }]
    );
    assert!(stake_hook_msgs(&vec![], "alice".to_string(), 1).is_empty());
}

#[test]
fn staked_messages_hold_their_fields() {
    let msg = staked::InstantiateMsg {
        denom: "ujuno".to_string(),
        unstaking_duration: Some(staked::Duration::Height(10)),
        active_threshold: Some(staked::ActiveThreshold::Percentage {
            percent: staked::Decimal { atomics: 500_000_000_000_000_000 },
        }),
    };
    assert_eq!(msg.clone(), msg);
    assert_ne!(
        staked::ExecuteMsg::Unstake { amount: 1 },
        staked::ExecuteMsg::Unstake { amount: 2 }
    );
    let query = staked::QueryMsg::ListStakers { start_after: None, limit: Some(3) };
    assert_ne!(query, staked::QueryMsg::IsActive {});
    let stakers = staked::ListStakersResponse {
        stakers: vec![staked::StakerBalanceResponse { address: "a".to_string(), balance: 4 }],
    };
    assert_eq!(stakers.stakers[0].balance, 4);
    assert_eq!(staked::DenomResponse { denom: "ujuno".to_string() }.denom, "ujuno");
    assert_eq!(staked::GetHooksResponse { hooks: vec![] }.hooks.len(), 0);
    assert_eq!(staked::MigrateMsg {}, staked::MigrateMsg {});
    assert_ne!(staked::Duration::Height(1), staked::Duration::Time(1));
    assert_ne!(
        staked::ActiveThreshold::AbsoluteCount { count: 1 },
        staked::ActiveThreshold::AbsoluteCount { count: 2 }
    );
}
