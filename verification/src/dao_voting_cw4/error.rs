//! The errors of the voting module.

use cosmwasm_std::StdError;
use vstd::prelude::*;

verus! {

/// Why an operation of the voting module was refused.
#[derive(Debug, PartialEq)]
pub enum ContractError {
    /// An error of the chain, handed on as it came.
    Std(StdError),
    /// The group contract could not be set up.
    GroupContractInstantiateError {},
    /// A new group was asked for without members.
    NoMembers {},
    /// A new group was asked for with the same member twice.
    DuplicateMembers {},
    /// A new group was asked for whose members all weigh nothing.
    ZeroTotalWeight {},
    /// The module takes no messages.
    NoExecute {},
    /// A second group contract answered.
    DuplicateGroupContract {},
    /// A reply came with an id that the module never gave out.
    UnknownReplyId { id: u64 },
}

} // verus!
