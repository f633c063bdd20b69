//! Verified logic of a family of DAO contracts: a permissioned token issuer
//! with a transfer guard, and the boundary types of its voting collaborators.

pub mod address_map;
pub mod chain;
pub mod cw_tokenfactory_issuer;
pub mod dao_voting_cw4;
pub mod dao_voting_native_staked;
pub mod dao_voting_token_factory_staked;
pub mod text;
