[package]
name = "wrapped_token"
version = "0.1.0"
edition = "2021"
publish = false

[dependencies]
cosmwasm-std = "1"
cw-storage-plus = "0.10"
cw2 = "0.10"
cw20 = "0.10"
cw20-base = { version = "0.10", features = ["library"] }
schemars = "0.8"
serde = { version = "1", default-features = false, features = ["derive"] }
