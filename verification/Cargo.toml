[package]
name = "mir2"
version = "0.1.0"
edition = "2021"
publish = false

[dependencies]
fastrand = "2"
argon2 = { version = "0.5", features = ["std"] }
serde = { version = "1", features = ["derive"] }
serde_json = "1"
toml = "0.8"
sqlx = { version = "0.8", default-features = false, features = ["sqlite", "runtime-tokio", "macros", "derive"] }
tokio = { version = "1", features = ["full"] }
tokio-tungstenite = "*"
futures-util = "0.3"
tracing = "0.1"
tracing-subscriber = { version = "0.3", features = ["env-filter"] }
anyhow = "1"
thiserror = "*"
