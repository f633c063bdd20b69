//! The messages that tell the listening contracts of a change in stake.

use vstd::prelude::*;

verus! {

/// A change in what an address has staked.
#[derive(Clone, Debug, PartialEq, Eq)]
pub enum StakeChangedHookMsg {
    Stake { addr: String, amount: u128 },
    Unstake { addr: String, amount: u128 },
}

/// The message that a listening contract carries out.
#[derive(Clone, Debug, PartialEq, Eq)]
pub enum StakeChangedExecuteMsg {
    StakeChangeHook(StakeChangedHookMsg),
}

/// A message for one listening contract. No funds go with it, and its
/// outcome is not asked for.
#[derive(Clone, Debug, PartialEq, Eq)]
pub struct HookMsg {
    pub contract_addr: String,
    pub msg: StakeChangedExecuteMsg,
}

/// Whether `msg` tells the contract at `hook` that `addr` has staked
/// `amount`, or unstaked it.
pub open spec fn tells(msg: HookMsg, hook: Seq<char>, staked: bool, addr: Seq<char>, amount: u128)
    -> bool {
    &&& msg.contract_addr@ == hook
    &&& msg.msg matches StakeChangedExecuteMsg::StakeChangeHook(change)
    &&& if staked {
        change matches StakeChangedHookMsg::Stake { addr: a, amount: n } && a@ == addr && n
            == amount
    } else {
        change matches StakeChangedHookMsg::Unstake { addr: a, amount: n } && a@ == addr && n
            == amount
    }
}

/// One message for each listening contract, in the order of `hooks`.
fn hook_msgs(hooks: &Vec<String>, staked: bool, addr: String, amount: u128) -> (r: Vec<HookMsg>)
    ensures
        r@.len() == hooks@.len(),
        forall|i: int|
            0 <= i < r@.len() ==> tells(#[trigger] r@[i], hooks@[i]@, staked, addr@, amount),
{
    let mut out: Vec<HookMsg> = Vec::new();
    let mut i: usize = 0;
    while i < hooks.len()
        invariant
            i <= hooks@.len(),
            out@.len() == i,
            forall|k: int|
                0 <= k < i ==> tells(#[trigger] out@[k], hooks@[k]@, staked, addr@, amount),
        decreases hooks@.len() - i,
    {
        let change = if staked {
            StakeChangedHookMsg::Stake { addr: addr.clone(), amount }
        } else {
            StakeChangedHookMsg::Unstake { addr: addr.clone(), amount }
        };
        out.push(
            HookMsg {
                contract_addr: hooks[i].clone(),
                msg: StakeChangedExecuteMsg::StakeChangeHook(change),
            },
        );
        i = i + 1;
    }
    out
}

/// Tells every listening contract that `addr` has staked `amount`: one
/// message for each of `hooks`, in their order.
pub fn stake_hook_msgs(hooks: &Vec<String>, addr: String, amount: u128) -> (r: Vec<HookMsg>)
    ensures
        r@.len() == hooks@.len(),
        forall|i: int|
            0 <= i < r@.len() ==> tells(#[trigger] r@[i], hooks@[i]@, true, addr@, amount),
{
    hook_msgs(hooks, true, addr, amount)
}

/// Tells every listening contract that `addr` has unstaked `amount`: one
/// message for each of `hooks`, in their order.
pub fn unstake_hook_msgs(hooks: &Vec<String>, addr: String, amount: u128) -> (r: Vec<HookMsg>)
    ensures
        r@.len() == hooks@.len(),
        forall|i: int|
            0 <= i < r@.len() ==> tells(#[trigger] r@[i], hooks@[i]@, false, addr@, amount),
{
    hook_msgs(hooks, false, addr, amount)
}

} // verus!
