[package]
name = "btcli"
version = "0.5.7"
edition = "2021"
publish = false

[dependencies]
base64 = "=0.22.1"
chrono = "=0.4.45"
cursive = "=0.21.1"
lazy_static = "=1.5.1"
log = { version = "=0.4.34", features = ["std"] }
md5 = "=0.7.0"
rand = "=0.9.5"
serde = { version = "=1.0.229", features = ["derive"] }
serde_json = "=1.0.154"
toml = "=0.8.23"
ureq = "=3.5.0"
