[package]
name = "pds_migration"
version = "0.1.0"
edition = "2021"
publish = false

[dependencies]
atrium-api = "=0.25.8"
atrium-common = "=0.1.4"
atrium-crypto = "=0.1.3"
atrium-identity = "=0.1.9"
atrium-xrpc-client = "=0.5.15"
hex = "=0.4.3"
hickory-resolver = "=0.25.2"
rand = "=0.8.8"
serde_json = "=1.0.154"
tokio = { version = "=1.54.1", features = ["macros", "rt-multi-thread"] }
