[package]
name = "anone-launchpad"
version = "0.1.0"
edition = "2021"
publish = false

[dependencies]
anone-cw721 = "*"
cosmwasm-std = "1"
cw-storage-plus = "1"
cw-utils = "1"
cw2 = "1"
schemars = "0.8"
serde = { version = "1", default-features = false, features = ["derive"] }
thiserror = "1"
