[package]
name = "mutenix"
version = "0.1.0"
edition = "2021"
publish = false

[dependencies]
serde_json = "=1.0.154"
url = "=2.5.8"
serde = { version = "=1.0.229", features = ["derive"] }
serde_yaml = "=0.9.34"
tokio = { version = "=1.54.1", features = ["rt-multi-thread", "macros", "sync", "time", "net", "fs"] }
tokio-tungstenite = "=0.24.0"
futures-util = "=0.3.34"
hidapi = { version = "=2.6.7", default-features = false, features = ["linux-native-basic-udev"] }
log = "=0.4.34"
thiserror = "=1.0.69"
anyhow = "=1.0.104"
dirs = "=5.0.1"
chrono = "=0.4.45"
crossterm = "=0.28.1"
ratatui = "=0.29.0"
axum = { version = "=0.7.9", features = ["ws"] }
tower-http = { version = "=0.5.2", features = ["cors"] }
enigo = "=0.2.1"
reqwest = { version = "=0.12.28", features = ["json"] }
