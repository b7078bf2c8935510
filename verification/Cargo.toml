[package]
name = "wispr_core"
version = "0.1.0"
edition = "2021"
publish = false

[dependencies]
serde = { version = "=1.0.229", features = ["derive"] }
serde_json = "=1.0.154"
toml = "=0.8.23"
dirs = "=5.0.1"
chrono = { version = "=0.4.45", features = ["serde"] }
thiserror = "=2.0.21"
clap = { version = "=4.6.7", features = ["derive", "env"] }
tokio = { version = "=1.54.1", features = ["macros", "rt-multi-thread", "net", "io-util", "sync", "time"] }
webrtc-vad = "=0.4.0"
uuid = { version = "=1.29.0", features = ["v4"] }
hound = "=3.5.1"
reqwest = { version = "0.12", default-features = false, features = ["json", "stream", "rustls-tls"] }
futures-util = "0.3"
secret-service = { version = "4", features = ["rt-tokio-crypto-rust"] }
zbus = { version = "4", default-features = false, features = ["tokio"] }
tokio-tungstenite = { version = "0.24", features = ["rustls-tls-webpki-roots"] }
evdev = "0.12"
