//! A permissioned issuer for one token-factory denom.
//!
//! The owner grants mint and burn allowances and the blacklister, whitelister
//! and freezer roles. The chain asks the issuer before every transfer of the
//! denom whether it may go ahead. The issuer's store is an explicit [`State`]
//! value that every operation takes; what an operation asks of the chain comes
//! back as plain messages in its [`Response`].

pub mod contract;
pub mod error;
pub mod execute;
pub mod helpers;
pub mod hooks;
pub mod laws;
pub mod msg;
pub mod queries;
pub mod response;
pub mod state;

pub use error::ContractError;
pub use response::Response;
pub use state::State;
