[package]
name = "socketeer"
version = "0.1.0"
edition = "2021"
publish = false

[dependencies]
anyhow = "=1.0.104"
chrono = "=0.4.45"
concread = "=0.5.10"
dashmap = "=6.2.1"
futures-util = "=0.3.34"
lazy_static = "=1.5.1"
num_cpus = "=1.17.0"
poem = { version = "=3.1.12", features = ["anyhow", "websocket"] }
poem-openapi = { version = "=5.1.16", features = ["redoc", "uuid"] }
reqwest = { version = "=0.13.5", default-features = false }
scylla = "=1.9.0"
serde = { version = "=1.0.229", features = ["derive"] }
serde_json = "=1.0.154"
tokio = { version = "=1.54.1", features = ["macros", "rt", "rt-multi-thread", "signal", "sync", "time"] }
tracing = "=0.1.44"
tracing-subscriber = { version = "=0.3.23", features = ["env-filter"] }
uuid = { version = "=1.29.0", features = ["v4", "serde"] }
