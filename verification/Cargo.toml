[package]
name = "relay_outbound"
version = "0.1.0"
edition = "2021"
publish = false

[dependencies]
tokio = { version = "*", default-features = false, features = ["sync"] }
serde_json = "*"
reown-relay-rpc = { version = "*", default-features = false }
pin-project = "*"
