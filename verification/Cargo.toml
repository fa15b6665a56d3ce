[package]
name = "rabbit_client"
version = "0.1.0"
edition = "2021"
publish = false

[dependencies]
sled = "0.34"
rabbitmq-stream-client = "*"
reqwest = { version = "*", default-features = false }
tokio = { version = "1", features = ["macros", "rt-multi-thread", "sync", "time", "net"] }
futures = "0.3"
tracing = "0.1"
tracing-subscriber = "0.3"
thiserror = "*"
axum = "*"
lapin = { version = "*", default-features = false }
