[package]
name = "usdv"
version = "0.1.0"
edition = "2021"
publish = false

[dependencies]
solana-sdk = "=2.3.1"
spl-associated-token-account = "=6.0.0"
anchor-lang = { version = "=0.31.2", features = ["init-if-needed"] }
anchor-spl = "=0.31.2"
borsh = "=1.8.1"
serde = { version = "=1.0.229", features = ["derive"] }
chrono = "=0.4.45"
thiserror = "=1.0.69"
