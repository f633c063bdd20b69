//! The chain as the contracts see it: plain values that stand for what the
//! chain hands in and takes back, and the chain's own error type.

use cosmwasm_std::StdError;
use vstd::prelude::*;

verus! {

/// The chain's own error type. Nothing here looks inside a value of it.
#[verifier::external_type_specification]
#[verifier::external_body]
pub struct ExStdError(StdError);

/// The error that `StdError::not_found` builds for a kind of thing.
pub uninterp spec fn not_found_error(kind: Seq<char>) -> StdError;

/// Calls `StdError::not_found`, which builds the `NotFound` error that holds
/// `kind`: the same error for the same kind.
#[verifier::external_body]
pub(crate) fn not_found(kind: &str) -> (e: StdError)
    ensures
        e == not_found_error(kind@),
{
    StdError::not_found(kind)
}

/// The part of the chain's environment that the contracts read.
#[derive(Clone, Debug, PartialEq, Eq)]
pub struct Env {
    /// The address of the contract itself.
    pub contract_address: String,
    /// The height of the block that is being made.
    pub block_height: u64,
}

/// The part of a message's origin that the contracts read.
#[derive(Clone, Debug, PartialEq, Eq)]
pub struct MessageInfo {
    /// The address that sent the message.
    pub sender: String,
}

/// An amount of a denom.
#[derive(Clone, Debug, PartialEq, Eq)]
pub struct Coin {
    pub denom: String,
    pub amount: u128,
}

/// When the chain calls back with the outcome of a message.
#[derive(Clone, Copy, Debug, PartialEq, Eq, Structural)]
pub enum ReplyOn {
    /// Whether the message succeeds or fails; a failure does not undo the
    /// transaction.
    Always,
    /// Only when it succeeds; a failure undoes the whole transaction.
    Success,
    /// Never; a failure undoes the whole transaction.
    Never,
}

/// A key and a value that the chain records with the transaction.
#[derive(Clone, Debug, PartialEq, Eq)]
pub struct Attribute {
    pub key: String,
    pub value: String,
}

impl View for Attribute {
    type V = (Seq<char>, Seq<char>);

    open spec fn view(&self) -> (Seq<char>, Seq<char>) {
        (self.key@, self.value@)
    }
}

/// What came back from a message that the chain carried out.
#[derive(Clone, Debug, PartialEq, Eq)]
pub struct SubMsgResponse {
    /// The bytes that the message's handler returned, if any.
    pub data: Option<Vec<u8>>,
}

/// The plain value of a message's outcome: the bytes that came back, if
/// any, or the chain's error text.
pub open spec fn outcome_view(r: Result<SubMsgResponse, String>) -> Result<
    Option<Seq<u8>>,
    Seq<char>,
> {
    match r {
        Ok(r) => Ok(
            match r.data {
                Some(d) => Some(d@),
                None => None,
            },
        ),
        Err(e) => Err(e@),
    }
}

/// The chain's call back for a message that was sent with an id.
#[derive(Debug, PartialEq, Eq)]
pub struct Reply {
    pub id: u64,
    /// What came back, or the chain's error text.
    pub result: Result<SubMsgResponse, String>,
}

} // verus!
