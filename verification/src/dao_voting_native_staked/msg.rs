//! What the module is sent and what it answers.

use vstd::prelude::*;

verus! {

/// A span of blocks or of seconds.
#[derive(Clone, Copy, Debug, PartialEq, Eq, Structural)]
pub enum Duration {
    Height(u64),
    /// Time in seconds.
    Time(u64),
}

/// A decimal number with 18 digits behind the point, held as the whole
/// number of its smallest units.
#[derive(Clone, Copy, Debug, PartialEq, Eq, Structural)]
pub struct Decimal {
    pub atomics: u128,
}

/// How much must be staked for the DAO to be active.
#[derive(Clone, Copy, Debug, PartialEq, Eq, Structural)]
pub enum ActiveThreshold {
    /// The number of tokens that must be staked.
    AbsoluteCount { count: u128 },
    /// The part of the total supply that must be staked.
    Percentage { percent: Decimal },
}

#[derive(Clone, Debug, PartialEq, Eq)]
pub struct InstantiateMsg {
    /// Token denom e.g. ujuno, or some ibc denom
    pub denom: String,
    /// How long until the tokens become liquid again
    pub unstaking_duration: Option<Duration>,
    /// The number or percentage of tokens that must be staked
    /// for the DAO to be active
    pub active_threshold: Option<ActiveThreshold>,
}

#[derive(Clone, Debug, PartialEq, Eq)]
pub enum ExecuteMsg {
    /// Stakes tokens with the contract to get voting power in the DAO
    Stake {  },
    /// Unstakes tokens so that they begin unbonding
    Unstake { amount: u128 },
    /// Updates the contract configuration
    UpdateConfig { duration: Option<Duration> },
    /// Claims unstaked tokens that have completed the unbonding period
    Claim {  },
    /// Sets the active threshold to a new value. Only the
    /// instantiator of this contract (a DAO most likely) may call this
    /// method.
    UpdateActiveThreshold { new_threshold: Option<ActiveThreshold> },
    /// Adds a hook that fires on staking / unstaking
    AddHook { addr: String },
    /// Removes a hook that fires on staking / unstaking
    RemoveHook { addr: String },
}

/// The questions of the module: its own, those of every voting module, and
/// whether the DAO is active.
#[derive(Clone, Debug, PartialEq, Eq)]
pub enum QueryMsg {
    GetConfig {  },
    Claims { address: String },
    GetDenom {  },
    ListStakers { start_after: Option<String>, limit: Option<u32> },
    ActiveThreshold {  },
    GetHooks {  },
    /// The voting power of `address` at `height`, or now.
    VotingPowerAtHeight { address: String, height: Option<u64> },
    /// The voting power of all stakers at `height`, or now.
    TotalPowerAtHeight { height: Option<u64> },
    Dao {  },
    Info {  },
    IsActive {  },
}

#[derive(Clone, Debug, PartialEq, Eq)]
pub struct MigrateMsg {}

#[derive(Clone, Debug, PartialEq, Eq)]
pub struct ListStakersResponse {
    pub stakers: Vec<StakerBalanceResponse>,
}

#[derive(Clone, Debug, PartialEq, Eq)]
pub struct StakerBalanceResponse {
    pub address: String,
    pub balance: u128,
}

#[derive(Clone, Debug, PartialEq, Eq)]
pub struct DenomResponse {
    pub denom: String,
}

#[derive(Clone, Debug, PartialEq, Eq)]
pub struct GetHooksResponse {
    pub hooks: Vec<String>,
}

} // verus!
