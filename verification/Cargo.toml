[package]
name = "exit_monitor"
version = "0.1.0"
edition = "2021"
publish = false

[dependencies]
actix-web = { version = "*", default-features = false, features = ["macros"] }
futures-util = "*"
log = "*"
serde = { version = "*", features = ["derive"] }
serde_json = "*"
solana-sdk = "=2.2.2"
