[package]
name = "dsh_clients"
version = "0.1.0"
edition = "2021"
publish = false

[dependencies]
base64 = "=0.22.1"
sha2 = "=0.10.9"
serde = { version = "=1.0.229", features = ["derive"] }
serde_json = "=1.0.154"
reqwest = { version = "=0.12.28", default-features = false, features = ["json", "rustls-tls"] }
rumqttc = "=0.24.0"
rustls-native-certs = "=0.7.3"
uuid = { version = "=1.29.1", features = ["v4"] }
log = "=0.4.35"
lazy_static = "=1.5.1"
async-trait = "=0.1.92"
chrono = { version = "=0.4.45", default-features = false, features = ["serde", "clock"] }
lombok = "=0.4.0"
progenitor-client = "=0.11.2"
