[package]
name = "beluga"
version = "0.1.0"
edition = "2021"
publish = false

[dependencies]
cc = "=1.11.0"
chrono = { version = "=0.4.45", default-features = false, features = ["std"] }
serde_json = "=1.0.154"
serde = { version = "=1.0.229", features = ["derive"] }
prost = "=0.12.6"
bytes = "=1.12.1"
tokio = { version = "=1.54.1", features = ["full"] }
futures = "=0.3.34"
futures-util = "=0.3.34"
log = "=0.4.35"
tracing = "=0.1.44"
parking_lot = "=0.12.5"
crossbeam = "=0.8.5"
strum = { version = "=0.25.0", features = ["derive"] }
thiserror = "=1.0.69"
anyhow = "=1.0.104"
http = "=1.5.0"
tokio-tungstenite = { version = "=0.21.0", features = ["rustls-tls-native-roots"] }
rumqttc = "=0.23.0"
pin-project = "=1.1.13"
bindgen = "0.69"
