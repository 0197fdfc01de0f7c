[package]
name = "wallet_activity"
version = "0.1.0"
edition = "2021"
publish = false

[dependencies]
axum = { version = "0.8.9", default-features = false, features = ["http1", "json", "tokio"] }
chrono = { version = "0.4.45", default-features = false, features = ["std"] }
http = "1"
serde = { version = "1", features = ["derive"] }
solana-sdk = "4"
tokio = { version = "1", features = ["macros", "rt-multi-thread", "net"] }
tower-http = { version = "0.6", default-features = false, features = ["cors"] }
