[package]
name = "oauth_gateway"
version = "0.1.0"
edition = "2021"
publish = false

[dependencies]
parking_lot = "*"
rand = "*"
serde_json = "*"
serde = "*"
tokio = { version = "*", features = ["full"] }
axum = "*"
axum-server = { version = "*", features = ["tls-rustls"] }
reqwest = { version = "*", default-features = false, features = ["json", "rustls-tls"] }
configparser = "*"
pico-args = "*"
