[package]
name = "flowsink"
version = "0.1.0"
edition = "2021"
publish = false

[dependencies]
serde_json = "*"
anyhow = "*"
dotenv = "*"
futures = "*"
influxdb2 = "*"
serde = { version = "*", features = ["derive"] }
tokio = { version = "*", features = ["full"] }
tracing = "*"
tracing-subscriber = "*"
