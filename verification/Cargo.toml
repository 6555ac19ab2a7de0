[package]
name = "graft_hook"
version = "0.1.0"
edition = "2021"
publish = false

[dependencies]
serde_json = "1"
serde = { version = "1", features = ["derive"] }
axum = "*"
tokio = { version = "1", features = ["macros", "rt-multi-thread", "process", "net", "time", "io-util"] }
tracing = "*"
tracing-subscriber = "*"
dotenvy = "*"
