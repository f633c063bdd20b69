//! The messages of the voting module, what it sends to the group contract
//! and what it answers.

use crate::chain::Attribute;
use crate::chain::ReplyOn;
use vstd::prelude::*;

verus! {

/// A member of a group and its weight.
#[derive(Clone, Debug, PartialEq, Eq)]
pub struct Member {
    pub addr: String,
    pub weight: u64,
}

/// The plain values of a list of members.
pub open spec fn members_view(v: Seq<Member>) -> Seq<(Seq<char>, u64)> {
    Seq::new(v.len(), |i: int| (v[i].addr@, v[i].weight))
}

/// The group that the module votes by.
#[derive(Clone, Debug, PartialEq, Eq)]
pub enum GroupContract {
    /// A group contract that exists.
    Existing { address: String },
    /// A group contract to set up from the code with this id.
    New { cw4_group_code_id: u64, initial_members: Vec<Member> },
}

#[derive(Clone, Debug, PartialEq, Eq)]
pub struct InstantiateMsg {
    pub group_contract: GroupContract,
}

/// The module takes no messages: a value of this type carries nothing, and
/// `execute` refuses it.
#[derive(Clone, Debug, PartialEq, Eq)]
pub struct ExecuteMsg {}

/// The questions that the module answers.
#[derive(Clone, Debug, PartialEq, Eq)]
pub enum QueryMsg {
    /// The voting power of `address` at `height`, or now.
    VotingPowerAtHeight { address: String, height: Option<u64> },
    /// The voting power of all members at `height`, or now.
    TotalPowerAtHeight { height: Option<u64> },
    Info {  },
    GroupContract {  },
    Dao {  },
}

#[derive(Clone, Debug, PartialEq, Eq)]
pub struct MigrateMsg {}

/// What the group contract answers for one member.
#[derive(Clone, Debug, PartialEq, Eq)]
pub struct MemberResponse {
    pub weight: Option<u64>,
}

/// What the group contract answers for all members.
#[derive(Clone, Debug, PartialEq, Eq)]
pub struct TotalWeightResponse {
    pub weight: u64,
}

#[derive(Clone, Debug, PartialEq, Eq)]
pub struct VotingPowerAtHeightResponse {
    pub power: u128,
    pub height: u64,
}

#[derive(Clone, Debug, PartialEq, Eq)]
pub struct TotalPowerAtHeightResponse {
    pub power: u128,
    pub height: u64,
}

/// The name and the version of a contract's code.
#[derive(Clone, Debug, PartialEq, Eq)]
pub struct ContractVersion {
    pub contract: String,
    pub version: String,
}

#[derive(Clone, Debug, PartialEq, Eq)]
pub struct InfoResponse {
    pub info: ContractVersion,
}

/// What sets a group contract up.
#[derive(Clone, Debug, PartialEq, Eq)]
pub struct GroupInstantiateMsg {
    pub admin: Option<String>,
    pub members: Vec<Member>,
}

/// What the module tells the group contract to do.
#[derive(Clone, Debug, PartialEq, Eq)]
pub enum GroupExecuteMsg {
    UpdateAdmin { admin: Option<String> },
}

/// What the module asks the group contract.
#[derive(Clone, Debug, PartialEq, Eq)]
pub enum GroupQueryMsg {
    Member { addr: String, at_height: Option<u64> },
    TotalWeight { at_height: Option<u64> },
}

/// A message for another contract. No funds go with it.
#[allow(inconsistent_fields)]
#[derive(Clone, Debug, PartialEq, Eq)]
pub enum WasmMsg {
    /// Set a contract up from the code with id `code_id`.
    Instantiate { admin: Option<String>, code_id: u64, msg: GroupInstantiateMsg, label: String },
    /// Have the contract at `contract_addr` carry out `msg`.
    Execute { contract_addr: String, msg: GroupExecuteMsg },
}

/// A message for the chain, with the id under which its outcome comes back.
#[derive(Clone, Debug, PartialEq, Eq)]
pub struct SubMsg {
    pub id: u64,
    pub msg: WasmMsg,
    pub reply_on: ReplyOn,
}

/// The outcome of an operation that went through.
#[derive(Clone, Debug, PartialEq, Eq)]
pub struct Response {
    pub messages: Vec<SubMsg>,
    pub attributes: Vec<Attribute>,
}

/// An answer of the module, or the question that the group contract has to
/// answer first.
#[derive(Clone, Debug, PartialEq, Eq)]
pub enum QueryPlan {
    /// Ask the group contract; hand its answer for one member to
    /// `query_voting_power_at_height`, its answer for all members to
    /// `query_total_power_at_height`.
    AskGroup { contract_addr: String, msg: GroupQueryMsg },
    Info(InfoResponse),
    GroupContract(String),
    Dao(String),
}

} // verus!
