[package]
name = "dao_contracts"
version = "0.1.0"
edition = "2021"
publish = false

[dependencies]
cosmwasm-schema = "=1.5.11"
cosmwasm-std = "=1.5.11"
cw-controllers = "=1.1.2"
cw-storage-plus = "=1.2.0"
cw-utils = "=1.0.3"
cw2 = "=1.1.2"
cw4 = "=1.1.2"
cw4-group = "=1.1.2"
dao-dao-macros = "=2.6.0"
dao-interface = "=2.6.0"
dao-voting = "=2.6.0"
osmosis-std = "=0.20.1"
thiserror = "=1.0.69"
token-bindings = "=0.11.0"
