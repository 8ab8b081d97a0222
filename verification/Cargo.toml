[package]
name = "weird_input"
version = "0.1.0"
edition = "2021"
publish = false

[dependencies]
anyhow = "*"
dirs = "*"
futures = "*"
serde = { version = "*", features = ["derive"] }
serde_json = "*"
tokio = { version = "*", features = ["macros", "rt-multi-thread", "process", "net"] }
tokio-tungstenite = "*"
toml = "*"
tracing = "*"
tracing-subscriber = "*"
