[package]
name = "multi_test"
version = "0.1.0"
edition = "2021"
publish = false

[dependencies]
cosmwasm-std = { version = "=2.3.6", features = ["staking", "stargate", "cosmwasm_2_0"] }
serde = { version = "=1.0.229", features = ["derive"] }
