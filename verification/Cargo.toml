[package]
name = "admin_settle"
version = "0.1.0"
edition = "2021"
publish = false

[dependencies]
mostro-core = "=0.14.2"
nostr-sdk = "=0.44.1"
sqlx = { version = "=0.9.0", default-features = false, features = ["runtime-tokio", "sqlite", "uuid"] }
tracing = "=0.1.44"
uuid = "=1.29.0"
