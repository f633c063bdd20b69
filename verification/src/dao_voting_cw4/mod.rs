//! A voting module whose voting power is the weight of a member in a group
//! contract. It sets the group up, or takes one that exists, and answers the
//! questions for voting power out of what the group answers.

pub mod contract;
pub mod error;
pub mod msg;
pub mod state;

pub use error::ContractError;
