[package]
name = "sensor_relay"
version = "0.1.0"
edition = "2021"
publish = false

[dependencies]
serde_json = "1"
regex = "1"
csv = "1"
chrono = { version = "0.4", default-features = false, features = ["std"] }
urlencoding = "2"
anyhow = "1"
dotenvy = "0.15"
reqwest = { version = "0.12", default-features = false, features = ["blocking"] }
rumqttc = "0.24"
serialport = { version = "4", default-features = false }
