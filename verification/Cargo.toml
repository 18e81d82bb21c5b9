[package]
name = "protonvpn-rs"
version = "0.1.0"
edition = "2021"
publish = false

[dependencies]
anyhow = "1"
askama = "0.12"
clap = { version = "4", features = ["derive", "cargo"] }
colored = "2"
elevate = "*"
log = { version = "0.4", features = ["kv"] }
notify = "6"
parking_lot = "0.12"
pnet = "0.35"
pretty_env_logger = "0.5"
rand = "0.8"
reqwest = { version = "0.12", default-features = false, features = ["blocking", "rustls-tls"] }
ron = "0.8"
serde = { version = "1", features = ["derive"] }
serde_json = "1"
signal-hook = "0.3"
sysinfo = "0.31"
