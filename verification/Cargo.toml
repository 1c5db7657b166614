[package]
name = "sol_batch"
version = "0.1.0"
edition = "2021"
publish = false

[dependencies]
anyhow = "1"
chrono = "0.4"
clap = { version = "4", features = ["derive"] }
dirs = "5"
futures = "0.3"
prettytable-rs = "0.10"
serde = { version = "1", features = ["derive"] }
serde_json = "1"
serde_yaml = "0.9"
solana-sdk = "=1.18.26"
tokio = { version = "1", features = ["macros", "rt-multi-thread", "time"] }
