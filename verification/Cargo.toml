[package]
name = "ttp_core"
version = "0.1.0"
edition = "2021"
publish = false

[dependencies]
base64 = "=0.22.1"
rand = "=0.8.8"
ratatui = "=0.29.0"
crossterm = "=0.28.1"
tokio = { version = "=1.54.1", features = ["full"] }
wtransport = { version = "=0.6.1", features = ["quinn"] }
rustls = "=0.23.46"
rustls-native-certs = "=0.8.5"
quinn = "=0.11.12"
thiserror = "=2.0.21"

[dev-dependencies]
byteorder = "=1.5.0"
