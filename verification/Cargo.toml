[package]
name = "node_config"
version = "0.1.0"
edition = "2021"
publish = false

[dependencies]
anyhow = "1"
secp256k1 = { version = "0.27", features = ["global-context"] }
serde_yaml = "0.9"
zksync_basic_types = "0.1.0"
zksync_protobuf = "*"
