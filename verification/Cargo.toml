[package]
name = "crush"
version = "0.1.0"
edition = "2021"
publish = false

[dependencies]
async-trait = "0.1"
chrono = { version = "=0.4.45", features = ["serde"] }
futures = "=0.3.34"
http-body-util = "=0.1.5"
hyper = { version = "=1.12.0", features = ["server", "http1"] }
hyper-tungstenite = "=0.30.0"
hyper-util = { version = "=0.1.21", features = ["tokio"] }
rust-ocpp = { version = "=3.0.4", features = ["v1_6"] }
serde = { version = "=1.0.229", features = ["derive"] }
serde_json = "=1.0.154"
thiserror = "=1.0.69"
tokio = { version = "=1.54.1", features = ["full"] }
tracing = "=0.1.44"
tracing-subscriber = "=0.3.23"
