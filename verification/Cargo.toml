[package]
name = "chat_relay"
version = "0.1.0"
edition = "2021"
publish = false

[dependencies]
sysinfo = "=0.39.6"
rustc_version_runtime = "=0.3.0"
tokio = { version = "=1.53.2", features = ["full"] }
tokio-stream = { version = "=0.1.19", features = ["io-util"] }
axum = "=0.8.9"
reqwest = { version = "=0.13.5", default-features = false }
clap = { version = "=4.6.7", features = ["derive"] }
