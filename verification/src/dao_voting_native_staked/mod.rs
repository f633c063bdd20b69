//! The messages of the voting module that counts staked native tokens.

pub mod msg;
