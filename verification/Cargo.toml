[package]
name = "beerus_rpc"
version = "0.1.0"
edition = "2021"
publish = false

[dependencies]
ethers = { version = "=2.0.14", default-features = false }
jsonrpsee = { version = "=0.26.1", features = ["server", "macros"] }
serde_json = "1"
tokio = { version = "1", features = ["sync"] }
