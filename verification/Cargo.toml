[package]
name = "opencode_pm"
version = "0.1.0"
edition = "2021"
publish = false

[dependencies]
uuid = { version = "*", features = ["v4"] }
time = { version = "*", features = ["formatting"] }
serde = { version = "*", features = ["derive"] }
serde_json = "*"
tokio = { version = "*", features = ["rt-multi-thread", "macros", "net", "fs", "io-util"] }
axum = "*"
dirs = "*"
keyring = "*"
tracing = "*"
tracing-subscriber = { version = "*", features = ["env-filter"] }
