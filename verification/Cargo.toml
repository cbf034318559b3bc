[package]
name = "omnity_port_cosmos"
version = "0.1.0"
edition = "2021"
publish = false

[dependencies]
cosmwasm-std = { version = "=3.0.10", features = ["stargate", "cosmwasm_2_0"] }
cosmwasm-schema = "=3.0.10"
cw-storage-plus = "=3.0.1"
cw2 = "=3.0.0"
osmosis-std = "=0.27.0"
prost = "*"
schemars = "*"
semver = "*"
serde = "*"
serde_json = "*"
thiserror = "*"
