[package]
name = "kafka_basics_rust"
version = "0.1.0"
edition = "2021"
publish = false

[dependencies]
rdkafka = "*"
serde = { version = "1", features = ["derive"] }
serde_json = "1"
thiserror = "*"
tokio = { version = "1", features = ["rt-multi-thread", "macros", "time"] }
toml = "*"
tracing = "0.1"
tracing-subscriber = { version = "0.3", features = ["env-filter", "json"] }
