[package]
name = "corridor"
version = "1.0.0"
edition = "2021"
publish = false

[dependencies]
anyhow = "=1.0.104"
arboard = { version = "=3.7.0", default-features = false }
base64 = "=0.22.1"
chrono = "=0.4.45"
clipboard-master = "=4.1.0"
dirs = "=5.0.1"
env_logger = "=0.10.2"
futures-util = "=0.3.34"
ksni = "0.3"
log = "=0.4.34"
notify-rust = "=4.18.2"
serde = { version = "=1.0.229", features = ["derive"] }
serde_json = "=1.0.154"
single-instance = "=0.3.3"
tokio = { version = "=1.54.1", features = ["rt-multi-thread", "macros", "sync", "time"] }
tokio-tungstenite = { version = "=0.21.0", features = ["rustls-tls-webpki-roots"] }
uuid = { version = "=1.29.0", features = ["v4"] }
