[package]
name = "sensors_gateway"
version = "0.1.0"
edition = "2021"
publish = false

[dependencies]
serde_json = "*"
serde = { version = "*", features = ["derive"] }
serde_yaml = "*"
chrono = "*"
env_logger = "*"
futures = "*"
async-std = "*"
paho-mqtt = "*"
influxdb = "*"
postgres = "*"
