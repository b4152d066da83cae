[package]
name = "chainhooks"
version = "0.1.0"
edition = "2021"
publish = false

[dependencies]
base58 = "=0.2.0"
bitcoincore-rpc = "=0.16.0"
chainhook-types = "=1.0.12"
clarity-repl = { version = "=1.4.1", default-features = false, features = ["wasm"] }
reqwest = { version = "=0.11.27", default-features = false }
serde = { version = "=1.0.229", features = ["derive"] }
serde_json = { version = "=1.0.154", features = ["arbitrary_precision"] }
