[package]
name = "p2p_chat"
version = "0.1.0"
edition = "2021"
publish = false

[dependencies]
clap = { version = "=4.6.7", features = ["derive"] }
futures-util = "=0.3.34"
rcgen = "=0.14.10"
reqwest = { version = "=0.13.5", default-features = false }
serde_json = "=1.0.151"
tokio = { version = "=1.53.2", features = ["full"] }
tokio-rustls = { version = "=0.26.6", default-features = false, features = ["ring", "tls12", "logging"] }
tokio-tungstenite = "=0.30.0"
url = "=2.5.8"
