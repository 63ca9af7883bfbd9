[package]
name = "clip_mesh"
version = "2.0.0"
edition = "2021"
publish = false

[dependencies]
aes-gcm = "0.10"
base64 = "0.21"
chrono = "0.4"
cocoa = "0.25"
dirs = "5"
env_logger = "0.10"
futures-util = "0.3"
hex = "0.4"
hostname = "0.3"
log = "0.4"
mdns-sd = "0.11"
objc = "0.2"
rand = "0.8"
serde = { version = "1", features = ["derive"] }
serde_json = "1"
sha2 = "0.10"
tokio = { version = "1", features = ["full"] }
tokio-tungstenite = "0.21"
tokio-util = "0.7"
