[package]
name = "tracking_transfer_token_bot"
version = "0.1.0"
edition = "2021"
publish = false

[dependencies]
ethers-core = { version = "=2.0.14", default-features = false }
tokio = { version = "=1.54.1", features = ["rt-multi-thread", "macros", "sync", "time", "signal"] }
serde = { version = "=1.0.229", features = ["derive"] }
serde_json = "=1.0.154"
once_cell = "=1.21.4"
thiserror = "=1.0.69"
dotenv = "=0.15.0"
solana-sdk = { version = "=5.0.0", default-features = false, features = ["full"] }
spl-token = { version = "=9.0.0", default-features = false }
