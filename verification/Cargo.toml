[package]
name = "leaderboard"
version = "0.1.0"
edition = "2021"
publish = false

[dependencies]
uuid = { version = "=1.27.0", features = ["v4"] }
axum = "=0.8.9"
tokio = { version = "=1.53.2", features = ["macros", "rt", "net"] }
reqwest = { version = "=0.13.5", default-features = false, features = ["form"] }
serde = "=1.0.229"
serde_derive = "=1.0.229"
serde_json = "=1.0.151"
