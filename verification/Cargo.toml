[package]
name = "mqtt_broker_admin"
version = "0.1.0"
edition = "2021"
publish = false

[dependencies]
tonic = { version = "*", default-features = false, features = ["codegen"] }
serde = { version = "*", features = ["derive"] }
serde_json = "*"
