[package]
name = "foundry_sandbox"
version = "0.1.0"
edition = "2021"
publish = false

[dependencies]
once_cell = "*"
rlp = "*"
hex = "*"
serde = { version = "*", features = ["derive"] }
serde_json = "*"
serde_cbor = "*"
thiserror = "*"
jsonrpc-core = "*"
linkme = "*"
awc = { version = "*", default-features = false }
