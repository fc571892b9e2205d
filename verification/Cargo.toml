[package]
name = "terrapoker"
version = "0.1.0"
edition = "2021"
publish = false

[dependencies]
cosmwasm-std = "1"
cw-storage-plus = "0.13"
cw2 = "0.13"
cw20 = "0.13"
cw20-base = { version = "0.13", features = ["library"] }
schemars = "0.8"
serde = { version = "1", default-features = false, features = ["derive"] }
thiserror = "1"
