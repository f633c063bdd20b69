//! The errors of the issuer.

use cosmwasm_std::StdError;
use vstd::prelude::*;

verus! {

/// The two allowances that are used up.
#[derive(Clone, Copy, Debug, PartialEq, Eq, Structural)]
pub enum AllowanceKind {
    Mint,
    Burn,
}

/// Why an operation of the issuer was refused.
#[derive(Debug, PartialEq)]
pub enum ContractError {
    /// An error of the chain, handed on as it came.
    Std(StdError),
    /// The sender is not the owner, or lacks the role that the action needs.
    Unauthorized {},
    /// More was asked for than the holder's allowance has left.
    InsufficientAllowance { kind: AllowanceKind, holder: String, requested: u128, available: u128 },
    /// Transfers of the denom are frozen.
    Frozen {},
    /// A party of the transfer is blacklisted.
    Blacklisted { address: String },
    /// The action needs the transfer guard, and the guard is not registered.
    GuardInactive {},
    /// A reply came that the issuer has not asked for: its id is none that
    /// the issuer gives out, or it answers the creation of a denom for a
    /// store that holds one.
    UnknownReplyId { id: u64 },
}

/// A [`ContractError`] with its addresses as plain values.
pub enum ContractErrorView {
    Std(StdError),
    Unauthorized,
    InsufficientAllowance { kind: AllowanceKind, holder: Seq<char>, requested: u128, available: u128 },
    Frozen,
    Blacklisted { address: Seq<char> },
    GuardInactive,
    UnknownReplyId { id: u64 },
}

impl View for ContractError {
    type V = ContractErrorView;

    open spec fn view(&self) -> ContractErrorView {
        match *self {
            ContractError::Std(e) => ContractErrorView::Std(e),
            ContractError::Unauthorized {  } => ContractErrorView::Unauthorized,
            ContractError::InsufficientAllowance { kind, holder, requested, available } =>
                ContractErrorView::InsufficientAllowance {
                    kind,
                    holder: holder@,
                    requested,
                    available,
                },
            ContractError::Frozen {  } => ContractErrorView::Frozen,
            ContractError::Blacklisted { address } => ContractErrorView::Blacklisted {
                address: address@,
            },
            ContractError::GuardInactive {  } => ContractErrorView::GuardInactive,
            ContractError::UnknownReplyId { id } => ContractErrorView::UnknownReplyId { id },
        }
    }
}

/// `outcome` is the error `e`.
pub open spec fn refused_with<T>(outcome: Result<T, ContractErrorView>, e: ContractErrorView)
    -> bool {
    outcome matches Err(x) && x == e
}

/// The plain value of the outcome of a check.
pub open spec fn check_view(r: Result<(), ContractError>) -> Result<(), ContractErrorView> {
    match r {
        Ok(_) => Ok(()),
        Err(e) => Err(e@),
    }
}

} // verus!
