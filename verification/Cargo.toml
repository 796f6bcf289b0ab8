[package]
name = "entropy_consumer"
version = "0.1.0"
edition = "2021"
publish = false

[dependencies]
cosmwasm-std = "=1.5.11"
cw2 = "=1.1.2"
entropy_beacon_cosmos = "=2.0.4"
serde = { version = "1", features = ["derive"] }
