//! The entry points of the voting module.

use crate::chain::not_found;
use crate::chain::not_found_error;
use crate::chain::outcome_view;
use crate::chain::Attribute;
use crate::chain::Env;
use crate::chain::MessageInfo;
use crate::chain::Reply;
use crate::chain::ReplyOn;
use crate::chain::SubMsgResponse;
use crate::dao_voting_cw4::error::ContractError;
use crate::dao_voting_cw4::msg::members_view;
use crate::dao_voting_cw4::msg::ContractVersion;
use crate::dao_voting_cw4::msg::ExecuteMsg;
use crate::dao_voting_cw4::msg::GroupContract;
use crate::dao_voting_cw4::msg::GroupExecuteMsg;
use crate::dao_voting_cw4::msg::GroupInstantiateMsg;
use crate::dao_voting_cw4::msg::GroupQueryMsg;
use crate::dao_voting_cw4::msg::InfoResponse;
use crate::dao_voting_cw4::msg::InstantiateMsg;
use crate::dao_voting_cw4::msg::Member;
use crate::dao_voting_cw4::msg::MemberResponse;
use crate::dao_voting_cw4::msg::MigrateMsg;
use crate::dao_voting_cw4::msg::QueryMsg;
use crate::dao_voting_cw4::msg::QueryPlan;
use crate::dao_voting_cw4::msg::Response;
use crate::dao_voting_cw4::msg::SubMsg;
use crate::dao_voting_cw4::msg::TotalPowerAtHeightResponse;
use crate::dao_voting_cw4::msg::TotalWeightResponse;
use crate::dao_voting_cw4::msg::VotingPowerAtHeightResponse;
use crate::dao_voting_cw4::msg::WasmMsg;
use crate::dao_voting_cw4::state::State;
use crate::dao_voting_cw4::state::CONTRACT_NAME;
use crate::dao_voting_cw4::state::CONTRACT_VERSION;
use crate::text::addr_lt;
use crate::text::address_lt;
use crate::text::lemma_addr_lt_asymmetric;
use crate::text::lemma_addr_lt_total;
use crate::text::lemma_addr_lt_transitive;
use crate::text::opt_view;
use cosmwasm_std::StdError;
use cw_utils::ParseReplyError;
use vstd::prelude::*;
use vstd::seq_lib::to_multiset_build;
use vstd::seq_lib::to_multiset_insert;

verus! {

/// The id under which the outcome of the group's set-up comes back.
pub const INSTANTIATE_GROUP_REPLY_ID: u64 = 0;

/// `s` with `m` put behind the last member whose address does not sort
/// after the address of `m`.
pub open spec fn insert_by_address(s: Seq<(Seq<char>, u64)>, m: (Seq<char>, u64)) -> Seq<
    (Seq<char>, u64),
>
    decreases s.len(),
{
    if s.len() > 0 && addr_lt(m.0, s.last().0) {
        insert_by_address(s.drop_last(), m).push(s.last())
    } else {
        s.push(m)
    }
}

/// The members in order of address. Members with one address keep the order
/// in which they came.
pub open spec fn sorted_by_address(s: Seq<(Seq<char>, u64)>) -> Seq<(Seq<char>, u64)>
    decreases s.len(),
{
    if s.len() == 0 {
        s
    } else {
        insert_by_address(sorted_by_address(s.drop_last()), s.last())
    }
}

/// Two neighbours in `s` are the same member with the same weight.
pub open spec fn has_equal_neighbours(s: Seq<(Seq<char>, u64)>) -> bool {
    exists|i: int| 0 <= i < s.len() - 1 && #[trigger] s[i] == s[i + 1]
}

/// The sum of the weights.
pub open spec fn total_weight(s: Seq<(Seq<char>, u64)>) -> nat
    decreases s.len(),
{
    if s.len() == 0 {
        0
    } else {
        total_weight(s.drop_last()) + s.last().1 as nat
    }
}

/// No member of `s` sorts before a member that stands before it.
pub open spec fn ordered(s: Seq<(Seq<char>, u64)>) -> bool {
    forall|i: int, j: int| #![trigger s[i], s[j]] 0 <= i < j < s.len() ==> !addr_lt(s[j].0, s[i].0)
}

/// Putting `m` at `pos` is what `insert_by_address` does, where all members
/// from `pos` on sort after `m` and the one before `pos` does not.
pub proof fn lemma_insert_at(s: Seq<(Seq<char>, u64)>, m: (Seq<char>, u64), pos: int)
    requires
        0 <= pos <= s.len(),
        forall|i: int| #![trigger s[i]] pos <= i < s.len() ==> addr_lt(m.0, s[i].0),
        pos > 0 ==> !addr_lt(m.0, s[pos - 1].0),
    ensures
        insert_by_address(s, m) == s.insert(pos, m),
    decreases s.len(),
{
    if pos < s.len() {
        // the last member sorts after `m`, so `m` goes in before it
        let init = s.drop_last();
        assert forall|i: int| #![trigger init[i]] pos <= i < init.len() implies addr_lt(
            m.0,
            init[i].0,
        ) by {
            assert(init[i] == s[i]);
        }
        lemma_insert_at(init, m, pos);
    }
}

/// Where `insert_by_address` puts `m`: behind the last member whose address
/// does not sort after the address of `m`.
pub open spec fn place_of(s: Seq<(Seq<char>, u64)>, m: (Seq<char>, u64)) -> int
    decreases s.len(),
{
    if s.len() > 0 && addr_lt(m.0, s.last().0) {
        place_of(s.drop_last(), m)
    } else {
        s.len() as int
    }
}

/// `insert_by_address` puts `m` at `place_of(s, m)` and leaves the others
/// where they were.
pub proof fn lemma_insert_at_place(s: Seq<(Seq<char>, u64)>, m: (Seq<char>, u64))
    ensures
        0 <= place_of(s, m) <= s.len(),
        insert_by_address(s, m) == s.insert(place_of(s, m), m),
        forall|i: int| #![trigger s[i]] place_of(s, m) <= i < s.len() ==> addr_lt(m.0, s[i].0),
        place_of(s, m) > 0 ==> !addr_lt(m.0, s[place_of(s, m) - 1].0),
    decreases s.len(),
{
    if s.len() > 0 && addr_lt(m.0, s.last().0) {
        let init = s.drop_last();
        lemma_insert_at_place(init, m);
        assert forall|i: int| #![trigger s[i]] place_of(s, m) <= i < s.len() implies addr_lt(
            m.0,
            s[i].0,
        ) by {
            if i < init.len() {
                assert(init[i] == s[i]);
            }
        }
        if place_of(s, m) > 0 {
            assert(init[place_of(s, m) - 1] == s[place_of(s, m) - 1]);
        }
    }
    lemma_insert_at(s, m, place_of(s, m));
}

/// Sorting keeps every member, as often as it came.
pub proof fn lemma_sorted_keeps_members(s: Seq<(Seq<char>, u64)>)
    ensures
        sorted_by_address(s).to_multiset() == s.to_multiset(),
        sorted_by_address(s).len() == s.len(),
    decreases s.len(),
{
    if s.len() > 0 {
        let init = s.drop_last();
        let sorted = sorted_by_address(init);
        lemma_sorted_keeps_members(init);
        lemma_insert_at_place(sorted, s.last());
        to_multiset_insert(sorted, place_of(sorted, s.last()), s.last());
        to_multiset_build(init, s.last());
        assert(init.push(s.last()) =~= s);
    }
}

/// Sorting puts the members in order of address.
pub proof fn lemma_sorted_is_ordered(s: Seq<(Seq<char>, u64)>)
    ensures
        ordered(sorted_by_address(s)),
    decreases s.len(),
{
    if s.len() > 0 {
        let sorted = sorted_by_address(s.drop_last());
        let m = s.last();
        let pos = place_of(sorted, m);
        let t = sorted.insert(pos, m);
        lemma_sorted_is_ordered(s.drop_last());
        lemma_insert_at_place(sorted, m);
        assert forall|i: int, j: int| #![trigger t[i], t[j]] 0 <= i < j < t.len() implies !addr_lt(
            t[j].0,
            t[i].0,
        ) by {
            if j == pos {
                // what stands before `m` does not sort after the member next to `m`
                assert(t[i] == sorted[i]);
                if addr_lt(m.0, sorted[i].0) {
                    lemma_addr_lt_total(sorted[pos - 1].0, m.0);
                    if sorted[pos - 1].0 != m.0 {
                        lemma_addr_lt_transitive(sorted[pos - 1].0, m.0, sorted[i].0);
                    }
                    assert(!addr_lt(sorted[pos - 1].0, sorted[i].0));
                }
            } else if i == pos {
                assert(t[j] == sorted[j - 1]);
                lemma_addr_lt_asymmetric(m.0, sorted[j - 1].0);
            } else {
                let i0 = if i < pos { i } else { i - 1 };
                let j0 = if j < pos { j } else { j - 1 };
                assert(t[i] == sorted[i0] && t[j] == sorted[j0]);
            }
        }
    }
}

/// No address stands twice in `s`.
pub open spec fn distinct_addresses(s: Seq<(Seq<char>, u64)>) -> bool {
    forall|i: int, j: int| #![trigger s[i], s[j]] 0 <= i < j < s.len() ==> s[i].0 != s[j].0
}

/// Sorting brings in no member that was not there.
pub proof fn lemma_sorted_members_came(s: Seq<(Seq<char>, u64)>)
    ensures
        forall|i: int|
            0 <= i < sorted_by_address(s).len() ==> s.contains(#[trigger] sorted_by_address(s)[i]),
    decreases s.len(),
{
    if s.len() > 0 {
        let init = s.drop_last();
        let sorted = sorted_by_address(init);
        let pos = place_of(sorted, s.last());
        let t = sorted_by_address(s);
        lemma_sorted_members_came(init);
        lemma_insert_at_place(sorted, s.last());
        assert forall|i: int| 0 <= i < t.len() implies s.contains(#[trigger] t[i]) by {
            if i == pos {
                assert(s[s.len() - 1] == t[i]);
            } else {
                let i0 = if i < pos { i } else { i - 1 };
                assert(init.contains(sorted[i0]));
                let k = choose|k: int| 0 <= k < init.len() && init[k] == sorted[i0];
                assert(s[k] == t[i]);
            }
        }
    }
}

/// A list in which no address stands twice has no address twice after
/// sorting either, so no two neighbours are equal: such a list of members
/// is never refused as `DuplicateMembers`.
pub proof fn lemma_distinct_addresses_pass(s: Seq<(Seq<char>, u64)>)
    requires
        distinct_addresses(s),
    ensures
        distinct_addresses(sorted_by_address(s)),
        !has_equal_neighbours(sorted_by_address(s)),
    decreases s.len(),
{
    if s.len() > 0 {
        let init = s.drop_last();
        let sorted = sorted_by_address(init);
        let pos = place_of(sorted, s.last());
        let t = sorted_by_address(s);
        assert(distinct_addresses(init)) by {
            assert forall|i: int, j: int|
                #![trigger init[i], init[j]]
                0 <= i < j < init.len() implies init[i].0 != init[j].0 by {
                assert(init[i] == s[i] && init[j] == s[j]);
            }
        }
        lemma_distinct_addresses_pass(init);
        lemma_sorted_members_came(init);
        lemma_insert_at_place(sorted, s.last());
        assert forall|i: int, j: int| #![trigger t[i], t[j]] 0 <= i < j < t.len() implies t[i].0
            != t[j].0 by {
            if i == pos || j == pos {
                // the other one came from before the last member
                let other = if i == pos { j - 1 } else { i };
                assert(init.contains(sorted[other]));
                let k = choose|k: int| 0 <= k < init.len() && init[k] == sorted[other];
                assert(s[k].0 != s[s.len() - 1].0);
            } else {
                let i0 = if i < pos { i } else { i - 1 };
                let j0 = if j < pos { j } else { j - 1 };
                assert(sorted[i0].0 != sorted[j0].0);
            }
        }
    }
    let t = sorted_by_address(s);
    if has_equal_neighbours(t) {
        let i = choose|i: int| 0 <= i < t.len() - 1 && #[trigger] t[i] == t[i + 1];
        assert(t[i].0 != t[i + 1].0);
    }
}

/// The members in order of address, as [`sorted_by_address`] orders them.
pub fn sort_members(members: Vec<Member>) -> (r: Vec<Member>)
    ensures
        members_view(r@) == sorted_by_address(members_view(members@)),
{
    let mut out: Vec<Member> = Vec::new();
    let mut i: usize = 0;
    let ghost input = members_view(members@);
    while i < members.len()
        invariant
            i <= members@.len(),
            input == members_view(members@),
            members_view(out@) == sorted_by_address(input.take(i as int)),
            out@.len() == i,
        decreases members@.len() - i,
    {
        let member = Member { addr: members[i].addr.clone(), weight: members[i].weight };
        let mut pos: usize = out.len();
        while pos > 0 && address_lt(member.addr.as_str(), out[pos - 1].addr.as_str())
            invariant
                pos <= out@.len(),
                forall|k: int|
                    #![trigger members_view(out@)[k]]
                    pos <= k < out@.len() ==> addr_lt(member.addr@, members_view(out@)[k].0),
            decreases pos,
        {
            pos = pos - 1;
        }
        proof {
            lemma_insert_at(members_view(out@), (member.addr@, member.weight), pos as int);
            assert(input.take(i + 1).drop_last() =~= input.take(i as int));
        }
        out.insert(pos, member);
        i = i + 1;
    }
    assert(input.take(i as int) =~= input);
    out
}

/// Whether two neighbours are the same member with the same weight.
pub fn has_duplicates(members: &Vec<Member>) -> (r: bool)
    ensures
        r == has_equal_neighbours(members_view(members@)),
{
    let ghost s = members_view(members@);
    let mut i: usize = 1;
    while i < members.len()
        invariant
            1 <= i,
            s == members_view(members@),
            forall|k: int| 0 <= k < i - 1 && k < s.len() - 1 ==> #[trigger] s[k] != s[k + 1],
        decreases members@.len() - i,
    {
        if members[i - 1].addr == members[i].addr && members[i - 1].weight == members[i].weight {
            assert(s[i - 1] == s[i - 1 + 1]);
            return true;
        }
        i = i + 1;
    }
    false
}

/// The sum of the weights.
pub fn sum_weights(members: &Vec<Member>) -> (r: u128)
    ensures
        r == total_weight(members_view(members@)),
{
    let ghost s = members_view(members@);
    let mut total: u128 = 0;
    let mut i: usize = 0;
    while i < members.len()
        invariant
            i <= members@.len(),
            s == members_view(members@),
            total == total_weight(s.take(i as int)),
            total <= i * 0xffff_ffff_ffff_ffff,
        decreases members@.len() - i,
    {
        assert(s.take(i + 1).drop_last() =~= s.take(i as int));
        assert(i * 0xffff_ffff_ffff_ffff + 0xffff_ffff_ffff_ffff <= 0xffff_ffff_ffff_ffff
            * 0xffff_ffff_ffff_ffff + 0xffff_ffff_ffff_ffff) by (nonlinear_arith)
            requires
                i <= 0xffff_ffff_ffff_ffff,
        ;
        total = total + members[i].weight as u128;
        assert((i + 1) * 0xffff_ffff_ffff_ffff == i * 0xffff_ffff_ffff_ffff
            + 0xffff_ffff_ffff_ffff) by (nonlinear_arith);
        i = i + 1;
    }
    assert(s.take(i as int) =~= s);
    total
}

/// The members of a new group in the order in which the group gets them.
/// A group needs a member, and no member twice.
pub fn check_members(initial_members: Vec<Member>) -> (r: Result<Vec<Member>, ContractError>)
    ensures
        initial_members@.len() == 0 ==> (r matches Err(e) && e is NoMembers),
        initial_members@.len() > 0 && has_equal_neighbours(
            sorted_by_address(members_view(initial_members@)),
        ) ==> (r matches Err(e) && e is DuplicateMembers),
        initial_members@.len() > 0 && !has_equal_neighbours(
            sorted_by_address(members_view(initial_members@)),
        ) ==> (r matches Ok(sorted) && members_view(sorted@) == sorted_by_address(
            members_view(initial_members@),
        )),
{
    if initial_members.len() == 0 {
        return Err(ContractError::NoMembers {  });
    }
    let sorted = sort_members(initial_members);
    if has_duplicates(&sorted) {
        return Err(ContractError::DuplicateMembers {  });
    }
    Ok(sorted)
}

/// The plain values of a list of attributes.
pub open spec fn attributes_view(v: Seq<Attribute>) -> Seq<(Seq<char>, Seq<char>)> {
    Seq::new(v.len(), |i: int| v[i]@)
}

/// `response` asks for a group with `members`, from the code with id
/// `code_id`. The module administers the group for the time being, and the
/// outcome comes back only when the group stands.
pub open spec fn sets_group_up(
    response: Response,
    contract: Seq<char>,
    sender: Seq<char>,
    code_id: u64,
    members: Seq<(Seq<char>, u64)>,
) -> bool {
    &&& attributes_view(response.attributes@) == seq![("action"@, "instantiate"@)]
    &&& response.messages@.len() == 1
    &&& response.messages@[0].id == INSTANTIATE_GROUP_REPLY_ID
    &&& response.messages@[0].reply_on == ReplyOn::Success
    &&& response.messages@[0].msg matches WasmMsg::Instantiate { admin, code_id: id, msg, label }
    &&& opt_view(admin) == Some(sender)
    &&& id == code_id
    &&& opt_view(msg.admin) == Some(contract)
    &&& members_view(msg.members@) == members
    &&& label@ == contract
}

/// `state` is the store of a module that votes for `dao` by the group at
/// `group_contract`.
pub open spec fn fresh_store(state: State, dao: Seq<char>, group_contract: Option<Seq<char>>)
    -> bool {
    &&& state.contract@ == CONTRACT_NAME@
    &&& state.version@ == CONTRACT_VERSION@
    &&& state.dao@ == dao
    &&& opt_view(state.group_contract) == group_contract
}

/// Makes the store of a voting module for the sender.
///
/// A new group needs a member, no member twice, and some weight. Its
/// members go to the group in order of address. A group that exists is taken
/// as it is.
pub fn instantiate(env: Env, info: MessageInfo, msg: InstantiateMsg) -> (res: Result<
    (State, Response),
    ContractError,
>)
    ensures
        match msg.group_contract {
            GroupContract::New { cw4_group_code_id, initial_members } => {
                let members = members_view(initial_members@);
                if members.len() == 0 {
                    res matches Err(e) && e is NoMembers
                } else if has_equal_neighbours(sorted_by_address(members)) {
                    res matches Err(e) && e is DuplicateMembers
                } else if total_weight(members) == 0 {
                    res matches Err(e) && e is ZeroTotalWeight
                } else {
                    res matches Ok((state, response)) && fresh_store(state, info.sender@, None)
                        && sets_group_up(
                        response,
                        env.contract_address@,
                        info.sender@,
                        cw4_group_code_id,
                        sorted_by_address(members),
                    )
                }
            },
            GroupContract::Existing { address } => {
                res matches Ok((state, response)) && fresh_store(
                    state,
                    info.sender@,
                    Some(address@),
                ) && response.messages@.len() == 0 && attributes_view(response.attributes@)
                    == seq![("action"@, "instantiate"@), ("group_contract"@, "address"@)]
            },
        },
{
    let mut state = State {
        contract: CONTRACT_NAME.to_owned(),
        version: CONTRACT_VERSION.to_owned(),
        dao: info.sender.clone(),
        group_contract: None,
    };
    let mut attributes: Vec<Attribute> = Vec::new();
    attributes.push(Attribute { key: "action".to_owned(), value: "instantiate".to_owned() });
    match msg.group_contract {
        GroupContract::New { cw4_group_code_id, initial_members } => {
            let total = sum_weights(&initial_members);
            let members = check_members(initial_members)?;
            if total == 0 {
                return Err(ContractError::ZeroTotalWeight {  });
            }
            let set_up = WasmMsg::Instantiate {
                admin: Some(info.sender),
                code_id: cw4_group_code_id,
                msg: GroupInstantiateMsg {
                    admin: Some(env.contract_address.clone()),
                    members,
                },
                label: env.contract_address,
            };
            let mut messages: Vec<SubMsg> = Vec::new();
            messages.push(
                SubMsg { id: INSTANTIATE_GROUP_REPLY_ID, msg: set_up, reply_on: ReplyOn::Success },
            );
            let response = Response { messages, attributes };
            assert(attributes_view(response.attributes@) =~= seq![("action"@, "instantiate"@)]);
            Ok((state, response))
        },
        GroupContract::Existing { address } => {
            state.group_contract = Some(address);
            attributes.push(
                Attribute { key: "group_contract".to_owned(), value: "address".to_owned() },
            );
            let response = Response { messages: Vec::new(), attributes };
            assert(attributes_view(response.attributes@) =~= seq![
                ("action"@, "instantiate"@),
                ("group_contract"@, "address"@),
            ]);
            Ok((state, response))
        },
    }
}

/// Refuses: the module takes no messages.
pub fn execute(_state: &mut State, _env: Env, _info: MessageInfo, _msg: ExecuteMsg) -> (res: Result<
    Response,
    ContractError,
>)
    ensures
        res matches Err(e) && e is NoExecute,
        *final(_state) == *old(_state),
{
    Err(ContractError::NoExecute {  })
}

/// The group contract's address, or the chain's `NotFound` error where none
/// is known yet.
pub fn load_group_contract(state: &State) -> (r: Result<String, StdError>)
    ensures
        match state.group_contract {
            Some(address) => r matches Ok(a) && a@ == address@,
            None => r matches Err(e) && e == not_found_error("group_contract"@),
        },
{
    match &state.group_contract {
        Some(address) => Ok(address.clone()),
        None => Err(not_found("group_contract")),
    }
}

/// Answers a question, or says what to ask the group contract first. The
/// questions for voting power go to the group contract, and fail while none
/// is known.
pub fn query(state: &State, _env: Env, msg: QueryMsg) -> (res: Result<QueryPlan, StdError>)
    ensures
        match msg {
            QueryMsg::VotingPowerAtHeight { address, height } => match state.group_contract {
                Some(group) => res matches Ok(
                    QueryPlan::AskGroup {
                        contract_addr,
                        msg: GroupQueryMsg::Member { addr, at_height },
                    },
                ) && contract_addr@ == group@ && addr@ == address@ && at_height == height,
                None => res matches Err(e) && e == not_found_error("group_contract"@),
            },
            QueryMsg::TotalPowerAtHeight { height } => match state.group_contract {
                Some(group) => res matches Ok(
                    QueryPlan::AskGroup { contract_addr, msg: GroupQueryMsg::TotalWeight { at_height } },
                ) && contract_addr@ == group@ && at_height == height,
                None => res matches Err(e) && e == not_found_error("group_contract"@),
            },
            QueryMsg::Info {  } => res matches Ok(QueryPlan::Info(r)) && r.info.contract@
                == state.contract@ && r.info.version@ == state.version@,
            QueryMsg::GroupContract {  } => match state.group_contract {
                Some(group) => res matches Ok(QueryPlan::GroupContract(a)) && a@ == group@,
                None => res matches Err(e) && e == not_found_error("group_contract"@),
            },
            QueryMsg::Dao {  } => res matches Ok(QueryPlan::Dao(a)) && a@ == state.dao@,
        },
{
    match msg {
        QueryMsg::VotingPowerAtHeight { address, height } => {
            let contract_addr = load_group_contract(state)?;
            Ok(
                QueryPlan::AskGroup {
                    contract_addr,
                    msg: GroupQueryMsg::Member { addr: address, at_height: height },
                },
            )
        },
        QueryMsg::TotalPowerAtHeight { height } => {
            let contract_addr = load_group_contract(state)?;
            Ok(
                QueryPlan::AskGroup {
                    contract_addr,
                    msg: GroupQueryMsg::TotalWeight { at_height: height },
                },
            )
        },
        QueryMsg::Info {  } => Ok(QueryPlan::Info(query_info(state))),
        QueryMsg::GroupContract {  } => {
            let contract_addr = load_group_contract(state)?;
            Ok(QueryPlan::GroupContract(contract_addr))
        },
        QueryMsg::Dao {  } => Ok(QueryPlan::Dao(state.dao.clone())),
    }
}

/// The voting power of a member: its weight in the group, and nothing for
/// an address that the group does not know. The height is the one that was
/// asked for, or that of the block that is being made.
pub fn query_voting_power_at_height(env: &Env, member: MemberResponse, height: Option<u64>) -> (r:
    VotingPowerAtHeightResponse)
    ensures
        r.power == (match member.weight {
            Some(w) => w,
            None => 0,
        }),
        r.height == (match height {
            Some(h) => h,
            None => env.block_height,
        }),
{
    let weight: u64 = match member.weight {
        Some(w) => w,
        None => 0,
    };
    let at: u64 = match height {
        Some(h) => h,
        None => env.block_height,
    };
    VotingPowerAtHeightResponse { power: weight as u128, height: at }
}

/// The voting power of all members: the group's total weight.
pub fn query_total_power_at_height(env: &Env, total: TotalWeightResponse, height: Option<u64>) -> (r:
    TotalPowerAtHeightResponse)
    ensures
        r.power == total.weight,
        r.height == (match height {
            Some(h) => h,
            None => env.block_height,
        }),
{
    let at: u64 = match height {
        Some(h) => h,
        None => env.block_height,
    };
    TotalPowerAtHeightResponse { power: total.weight as u128, height: at }
}

/// The name and version of the code that last wrote the store.
pub fn query_info(state: &State) -> (r: InfoResponse)
    ensures
        r.info.contract@ == state.contract@,
        r.info.version@ == state.version@,
{
    InfoResponse {
        info: ContractVersion { contract: state.contract.clone(), version: state.version.clone() },
    }
}

/// Records that this code has taken over the store.
pub fn migrate(state: &mut State, _env: Env, _msg: MigrateMsg) -> (res: Result<
    Response,
    ContractError,
>)
    ensures
        res matches Ok(response) && response.messages@.len() == 0 && response.attributes@.len()
            == 0,
        final(state).contract@ == CONTRACT_NAME@,
        final(state).version@ == CONTRACT_VERSION@,
        final(state).dao == old(state).dao,
        final(state).group_contract == old(state).group_contract,
{
    state.contract = CONTRACT_NAME.to_owned();
    state.version = CONTRACT_VERSION.to_owned();
    Ok(Response { messages: Vec::new(), attributes: Vec::new() })
}

/// The chain's error type for an answer that cannot be read.
#[verifier::external_type_specification]
#[verifier::external_body]
pub struct ExParseReplyError(ParseReplyError);

/// What `parse_reply_instantiate_data` reads as the address of the new
/// contract out of the outcome of a set-up, or that function's error.
pub uninterp spec fn instantiated_address(outcome: Result<Option<Seq<u8>>, Seq<char>>) -> Result<
    Seq<char>,
    ParseReplyError,
>;

/// Calls `parse_reply_instantiate_data` on the reply and hands back the
/// address in what it read. That function reads nothing but the outcome in
/// the reply. It fails on an outcome that is an error, and on one without
/// data; otherwise it decodes the data.
#[verifier::external_body]
pub(crate) fn parse_instantiate_reply(msg: &Reply) -> (r: Result<String, ParseReplyError>)
    ensures
        match r {
            Ok(address) => instantiated_address(outcome_view(msg.result)) matches Ok(a) && a
                == address@,
            Err(e) => instantiated_address(outcome_view(msg.result)) matches Err(x) && x == e,
        },
        outcome_view(msg.result) is Err ==> r is Err,
        (outcome_view(msg.result) matches Ok(data) && data is None) ==> r is Err,
{
    let result = match &msg.result {
        Ok(response) => cosmwasm_std::SubMsgResult::Ok(
            cosmwasm_std::SubMsgResponse {
                events: Vec::new(),
                data: response.data.clone().map(cosmwasm_std::Binary),
            },
        ),
        Err(error) => cosmwasm_std::SubMsgResult::Err(error.clone()),
    };
    cw_utils::parse_reply_instantiate_data(cosmwasm_std::Reply { id: msg.id, result }).map(
        |read| read.contract_address,
    )
}

/// `response` records the group's address and hands the group over to
/// `dao`.
pub open spec fn hands_group_over(response: Response, group: Seq<char>, dao: Seq<char>) -> bool {
    &&& attributes_view(response.attributes@) == seq![("group_contract_address"@, group)]
    &&& response.messages@.len() == 1
    &&& response.messages@[0].id == 0
    &&& response.messages@[0].reply_on == ReplyOn::Never
    &&& response.messages@[0].msg matches WasmMsg::Execute {
        contract_addr,
        msg: GroupExecuteMsg::UpdateAdmin { admin },
    }
    &&& contract_addr@ == group
    &&& opt_view(admin) == Some(dao)
}

/// Takes what was read from the answer to the group's set-up. An answer
/// that cannot be read is `GroupContractInstantiateError`. A second answer
/// is `DuplicateGroupContract`. Otherwise the group's address is stored, and
/// the group is handed over to the DAO.
pub fn group_instantiated(state: &mut State, read: Result<String, ParseReplyError>) -> (res: Result<
    Response,
    ContractError,
>)
    ensures
        match read {
            Err(_) => res matches Err(e) && e is GroupContractInstantiateError && *final(state)
                == *old(state),
            Ok(address) => if old(state).group_contract is Some {
                res matches Err(e) && e is DuplicateGroupContract && *final(state) == *old(state)
            } else {
                res matches Ok(response) && hands_group_over(response, address@, old(state).dao@)
                    && opt_view(final(state).group_contract) == Some(address@) && final(state).dao
                    == old(state).dao && final(state).contract == old(state).contract
                    && final(state).version == old(state).version
            },
        },
{
    match read {
        Ok(address) => {
            if state.group_contract.is_some() {
                return Err(ContractError::DuplicateGroupContract {  });
            }
            state.group_contract = Some(address.clone());
            let mut attributes: Vec<Attribute> = Vec::new();
            attributes.push(
                Attribute { key: "group_contract_address".to_owned(), value: address.clone() },
            );
            let hand_over = WasmMsg::Execute {
                contract_addr: address,
                msg: GroupExecuteMsg::UpdateAdmin { admin: Some(state.dao.clone()) },
            };
            let mut messages: Vec<SubMsg> = Vec::new();
            messages.push(SubMsg { id: 0, msg: hand_over, reply_on: ReplyOn::Never });
            let response = Response { messages, attributes };
            assert(attributes_view(response.attributes@) =~= seq![
                ("group_contract_address"@, address@),
            ]);
            Ok(response)
        },
        Err(_) => Err(ContractError::GroupContractInstantiateError {  }),
    }
}

/// Takes the chain's answer to a message that the module sent: the answer
/// to the group's set-up goes to [`group_instantiated`], and any other id is
/// an error.
pub fn reply(state: &mut State, _env: Env, msg: Reply) -> (res: Result<Response, ContractError>)
    ensures
        msg.id != INSTANTIATE_GROUP_REPLY_ID ==> (res matches Err(e) && e == (
        ContractError::UnknownReplyId { id: msg.id }) && *final(state) == *old(state)),
        msg.id == INSTANTIATE_GROUP_REPLY_ID ==> match instantiated_address(
            outcome_view(msg.result),
        ) {
            Err(_) => res matches Err(e) && e is GroupContractInstantiateError && *final(state)
                == *old(state),
            Ok(address) => if old(state).group_contract is Some {
                res matches Err(e) && e is DuplicateGroupContract && *final(state) == *old(state)
            } else {
                res matches Ok(response) && hands_group_over(response, address, old(state).dao@)
                    && opt_view(final(state).group_contract) == Some(address) && final(state).dao
                    == old(state).dao && final(state).contract == old(state).contract
                    && final(state).version == old(state).version
            },
        },
        msg.id == INSTANTIATE_GROUP_REPLY_ID && !(outcome_view(msg.result) matches Ok(Some(_)))
            ==> (res matches Err(e) && e is GroupContractInstantiateError),
{
    if msg.id == INSTANTIATE_GROUP_REPLY_ID {
        let read = parse_instantiate_reply(&msg);
        group_instantiated(state, read)
    } else {
        Err(ContractError::UnknownReplyId { id: msg.id })
    }
}

} // verus!
