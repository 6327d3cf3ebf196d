[package]
name = "revaultd"
version = "0.1.0"
edition = "2021"
publish = false

[dependencies]
jsonrpc-core = "18"
log = "0.4"
serde_json = "1"
