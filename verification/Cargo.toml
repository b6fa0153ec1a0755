[package]
name = "chat_gateway"
version = "0.1.0"
edition = "2021"
publish = false

[dependencies]
jsonwebtoken = { version = "=11.1.0", features = ["rust_crypto"] }
chrono = "=0.4.45"
serde = { version = "=1.0.229", features = ["derive"] }
serde_json = "=1.0.151"
axum = { version = "=0.8.9", features = ["ws"] }
tokio = { version = "=1.53.2", features = ["rt-multi-thread", "macros", "sync", "time"] }
futures-util = "=0.3.34"
dashmap = "=6.2.1"
tokio-stream = "=0.1.19"
secrecy = "=0.10.3"
