[package]
name = "beacon_verifier"
version = "0.1.0"
edition = "2021"
publish = false

[dependencies]
cosmwasm-std = "0.16"
drand-verify = "0.2"
fff = "*"
groupy = "*"
paired = "*"
schemars = "0.8"
serde = { version = "1", default-features = false, features = ["derive"] }
thiserror = "1"

[dev-dependencies]
hex = "0.4"
sha2 = "0.9"
