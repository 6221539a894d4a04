[package]
name = "polkadot-node-core-runtime-api"
version = "0.1.0"
edition = "2021"
publish = false

[dependencies]
futures = "0.3"
polkadot-primitives = "*"
sp-api = "*"
