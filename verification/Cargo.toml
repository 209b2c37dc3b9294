[package]
name = "telemetry_relay"
version = "0.1.0"
edition = "2021"
publish = false

[dependencies]
chrono = "0.4"
futures = "0.3"
hyper = { version = "0.14", features = ["full"] }
influxdb2 = { version = "0.5", default-features = false }
rumqttc = { version = "0.24", default-features = false }
serde = { version = "1", features = ["derive"] }
serde_json = "1"
tokio = { version = "1", features = ["full"] }
