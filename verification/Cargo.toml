[package]
name = "ledger_kv"
version = "0.1.0"
edition = "2021"
publish = false

[dependencies]
anyhow = "1"
borsh = "0.10"
clap = { version = "4", features = ["derive"] }
num-derive = "0.4"
num-traits = "0.2"
serde = { version = "1", features = ["derive"] }
serde_json = "1"
serde_yaml = "0.9"
solana-program = "1.18"
solana-sdk = "1.18"
thiserror = "1"
tokio = { version = "1", features = ["macros", "rt-multi-thread"] }
