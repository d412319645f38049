[package]
name = "pluto"
version = "0.1.0"
edition = "2021"
publish = false

[dependencies]
cosmwasm-std = "0.16"
cosmwasm-storage = "0.16"
cw20 = "0.8"
sha3 = "0.9"
hex = "0.4"
serde = { version = "1", default-features = false, features = ["derive"] }
schemars = "0.8"
thiserror = "1"
