//! The store of the voting module.

use vstd::prelude::*;

verus! {

/// The name under which the voting module registers its code.
pub const CONTRACT_NAME: &'static str = "crates.io:dao-voting-cw4";

/// The version of this code.
pub const CONTRACT_VERSION: &'static str = "0.1.0";

/// What the voting module keeps.
#[derive(Clone, Debug, PartialEq, Eq)]
pub struct State {
    /// The name under which the code is registered.
    pub contract: String,
    /// The version of the code that last wrote the store.
    pub version: String,
    /// The DAO that the module votes for.
    pub dao: String,
    /// The group contract, once it is known.
    pub group_contract: Option<String>,
}

} // verus!
