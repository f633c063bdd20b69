//! What the voting module that counts staked token-factory tokens tells the
//! contracts that listen to it.

pub mod hooks;
